//! The textual listing of a resource vector: what it says, as sequences of
//! characters, and the code that builds it.

use crate::resources::{Amounts, Resources};
use vstd::prelude::*;
use vstd::string::StringExecFns;

verus! {

/// The character that stands for a digit below ten.
pub open spec fn digit(d: nat) -> char
    recommends
        d < 10,
{
    seq!['0', '1', '2', '3', '4', '5', '6', '7', '8', '9'][d as int]
}

/// A number in decimal notation, most significant digit first, without
/// leading zeros.
pub open spec fn decimal(n: nat) -> Seq<char>
    decreases n,
{
    if n < 10 {
        seq![digit(n)]
    } else {
        decimal(n / 10).push(digit(n % 10))
    }
}

/// A count and what is counted: the number, a space, the noun.
pub open spec fn counted(n: nat, noun: Seq<char>) -> Seq<char> {
    decimal(n).push(' ') + noun
}

/// A count and a noun that agrees with it: the noun as it is for one, with
/// an `s` behind it for any other number.
pub open spec fn counted_plural(n: nat, noun: Seq<char>) -> Seq<char> {
    if n == 1 {
        counted(n, noun)
    } else {
        counted(n, noun).push('s')
    }
}

/// The texts in order, with `sep` between each two neighbours.
pub open spec fn joined(parts: Seq<Seq<char>>, sep: Seq<char>) -> Seq<char>
    decreases parts.len(),
{
    if parts.len() == 0 {
        Seq::empty()
    } else if parts.len() == 1 {
        parts[0]
    } else {
        joined(parts.drop_last(), sep) + sep + parts.last()
    }
}

/// What each string of a list says.
pub open spec fn texts(parts: Seq<String>) -> Seq<Seq<char>> {
    parts.map_values(|s: String| s@)
}

/// The entry of a kind of goods in a listing: none where nothing is held.
pub open spec fn goods_entry(n: nat, noun: Seq<char>) -> Seq<Seq<char>> {
    if n == 0 {
        Seq::empty()
    } else {
        seq![counted(n, noun)]
    }
}

/// The entry of the coins in a listing: none where nothing is held.
pub open spec fn coins_entry(n: nat) -> Seq<Seq<char>> {
    if n == 0 {
        Seq::empty()
    } else {
        seq![counted_plural(n, "coin"@)]
    }
}

impl Amounts {
    /// The entries of the kinds that are held, in the fixed order of the
    /// kinds.
    pub open spec fn entries(self) -> Seq<Seq<char>> {
        coins_entry(self.coins)
            + goods_entry(self.wood, "wood"@)
            + goods_entry(self.stone, "stone"@)
            + goods_entry(self.ore, "ore"@)
            + goods_entry(self.clay, "clay"@)
            + goods_entry(self.glass, "glass"@)
            + goods_entry(self.loom, "loom"@)
            + goods_entry(self.papyrus, "papyrus"@)
    }

    /// The listing: the entries separated by a comma and a space, or the
    /// word `free` where nothing is held.
    pub open spec fn listing(self) -> Seq<char> {
        if self.entries().len() == 0 {
            "free"@
        } else {
            joined(self.entries(), ", "@)
        }
    }
}

/// The one-character string of a digit.
fn digit_text(d: u32) -> (res: &'static str)
    requires
        d < 10,
    ensures
        res@ == seq![digit(d as nat)],
{
    proof {
        reveal_strlit("0");
        reveal_strlit("1");
        reveal_strlit("2");
        reveal_strlit("3");
        reveal_strlit("4");
        reveal_strlit("5");
        reveal_strlit("6");
        reveal_strlit("7");
        reveal_strlit("8");
        reveal_strlit("9");
    }
    let res = match d {
        0 => "0",
        1 => "1",
        2 => "2",
        3 => "3",
        4 => "4",
        5 => "5",
        6 => "6",
        7 => "7",
        8 => "8",
        _ => "9",
    };
    assert(res@ =~= seq![digit(d as nat)]);
    res
}

/// Writes `n` in decimal notation behind what `out` holds.
fn push_decimal(out: &mut String, n: u32)
    ensures
        final(out)@ == old(out)@ + decimal(n as nat),
    decreases n,
{
    if n >= 10 {
        push_decimal(out, n / 10);
    }
    out.append(digit_text(n % 10));
    assert(out@ =~= old(out)@ + decimal(n as nat));
}

/// A count and what is counted, as in `2 wood`.
pub fn count_of(count: u32, noun: &str) -> (res: String)
    ensures
        res@ == counted(count as nat, noun@),
{
    let mut res = String::new();
    push_decimal(&mut res, count);
    res.append(" ");
    res.append(noun);
    proof {
        reveal_strlit(" ");
        assert(res@ =~= counted(count as nat, noun@));
    }
    res
}

/// A count and a noun that agrees with it, as in `1 coin` and `3 coins`.
pub fn plural(count: u32, noun: &str) -> (res: String)
    ensures
        res@ == counted_plural(count as nat, noun@),
{
    let mut res = count_of(count, noun);
    if count != 1 {
        res.append("s");
        proof {
            reveal_strlit("s");
            assert(res@ =~= counted_plural(count as nat, noun@));
        }
    }
    res
}

/// Puts the entry of a kind of goods behind the entries gathered so far,
/// where any of it is held.
fn add_if_non_zero(count: u32, resource: &str, resources: &mut Vec<String>)
    ensures
        texts(final(resources)@) == texts(old(resources)@) + goods_entry(count as nat, resource@),
{
    if count > 0 {
        resources.push(count_of(count, resource));
    }
    assert(texts(resources@) =~= texts(old(resources)@) + goods_entry(count as nat, resource@));
}

/// The strings in order, with `sep` between each two neighbours.
pub fn join(parts: &Vec<String>, sep: &str) -> (res: String)
    ensures
        res@ == joined(texts(parts@), sep@),
{
    let mut res = String::new();
    if parts.len() == 0 {
        return res;
    }
    res.append(parts[0].as_str());
    let mut i: usize = 1;
    while i < parts.len()
        invariant
            1 <= i <= parts.len(),
            res@ == joined(texts(parts@).take(i as int), sep@),
        decreases parts.len() - i,
    {
        res.append(sep);
        res.append(parts[i].as_str());
        proof {
            let next = texts(parts@).take(i + 1);
            assert(next.drop_last() =~= texts(parts@).take(i as int));
        }
        i += 1;
    }
    assert(texts(parts@).take(i as int) =~= texts(parts@));
    res
}

impl Resources {
    /// The listing of what is held, as in `2 wood, 1 glass, 1 papyrus`; of
    /// the empty vector, `free`.
    pub fn render(&self) -> (res: String)
        ensures
            res@ == self@.listing(),
    {
        let mut resources: Vec<String> = Vec::new();
        if self.coins > 0 {
            resources.push(plural(self.coins, "coin"));
        }
        assert(texts(resources@) =~= coins_entry(self.coins as nat));
        add_if_non_zero(self.wood, "wood", &mut resources);
        add_if_non_zero(self.stone, "stone", &mut resources);
        add_if_non_zero(self.ore, "ore", &mut resources);
        add_if_non_zero(self.clay, "clay", &mut resources);
        add_if_non_zero(self.glass, "glass", &mut resources);
        add_if_non_zero(self.loom, "loom", &mut resources);
        add_if_non_zero(self.papyrus, "papyrus", &mut resources);
        if resources.is_empty() {
            String::from_str("free")
        } else {
            join(&resources, ", ")
        }
    }
}

} // verus!
