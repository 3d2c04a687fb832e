//! Dimensions of tensors: a size together with an optional thumbprint
//! that tells dynamically created dimensions apart when printing.
//!
//! Thumbprints are minted from an explicit counter that the caller
//! threads through, so dimension creation stays a pure function of
//! its inputs.

use vstd::prelude::*;

use crate::code::{dec_string, spec_dec};

verus! {

/// A dimension: its size, and the thumbprint it was minted with, or
/// nothing for a dimension fixed at compile time.
#[derive(Clone, Copy, Eq, Debug)]
pub struct Dim {
    pub v: usize,
    pub thumbprint: Option<u16>,
}

impl PartialEq for Dim {
    /// Two dimensions are equal when their sizes are: the thumbprint
    /// only serves display.
    fn eq(&self, other: &Dim) -> (r: bool) {
        self.v == other.v
    }
}

impl vstd::std_specs::cmp::PartialEqSpecImpl for Dim {
    open spec fn obeys_eq_spec() -> bool {
        true
    }

    open spec fn eq_spec(&self, other: &Dim) -> bool {
        self.v == other.v
    }
}

/// The value the thumbprint counter starts from.
pub fn thumbprint_seed() -> (r: u16)
    ensures
        r == 0xF091u16,
{
    0xF091
}

/// The counter value that follows `c`.
pub open spec fn spec_next_thumbprint(c: u16) -> u16 {
    (((c as int) * 0x9CA3) % 0x10000) as u16 | 0x34E1u16
}

/// Mint a thumbprint: returns the current counter value and advances
/// the counter.
pub fn generate_thumbprint(counter: &mut u16) -> (r: u16)
    ensures
        r == *old(counter),
        *final(counter) == spec_next_thumbprint(*old(counter)),
{
    let current = *counter;
    let next: u16 = (((current as u32) * 0x9CA3u32) % 0x10000u32) as u16 | 0x34E1u16;
    *counter = next;
    current
}

impl Dim {
    /// The size of the dimension.
    pub fn as_usize(&self) -> (r: usize)
        ensures
            r == self.v,
    {
        self.v
    }

    /// The size of the dimension.
    pub fn value(&self) -> (r: usize)
        ensures
            r == self.v,
    {
        self.v
    }

    /// The thumbprint the dimension was minted with, or nothing for a
    /// statically fixed dimension.
    pub fn get_thumbprint(&self) -> (r: Option<u16>)
        ensures
            r == self.thumbprint,
    {
        self.thumbprint
    }

    /// The dimension written as its size, followed by a bullet and the
    /// thumbprint in hexadecimal when it has one.
    pub fn show(&self) -> (r: String)
        ensures
            r@ == spec_dim_show(*self),
    {
        let mut s = dec_string(self.v);
        match self.thumbprint {
            None => s,
            Some(tp) => {
                s.append("\u{2022}");
                let h = hex4(tp);
                s.append(h.as_str());
                s
            },
        }
    }
}

/// The text of a dimension: its size, then a bullet and four hex
/// digits when it carries a thumbprint.
pub open spec fn spec_dim_show(d: Dim) -> Seq<char> {
    match d.thumbprint {
        None => spec_dec(d.v as nat),
        Some(tp) => spec_dec(d.v as nat) + "\u{2022}"@ + spec_hex4(tp),
    }
}

/// A dimension fixed at compile time: it carries no thumbprint.
pub fn new_static_dim<const N: usize>() -> (r: Dim)
    ensures
        r.v == N,
        r.thumbprint is None,
{
    Dim { v: N, thumbprint: None }
}

/// A dimension created at run time, tagged with a fresh thumbprint
/// from the caller's counter.
pub fn new_dynamic_dim(counter: &mut u16, v: usize) -> (r: Dim)
    ensures
        r.v == v,
        r.thumbprint == Some(*old(counter)),
        *final(counter) == spec_next_thumbprint(*old(counter)),
{
    let tp = generate_thumbprint(counter);
    Dim { v, thumbprint: Some(tp) }
}

/// Whether two dimensions are the very same: equal in size and minted
/// with the same thumbprint.
pub fn identical(d1: &Dim, d2: &Dim) -> (r: bool)
    ensures
        r == (d1.v == d2.v && d1.thumbprint == d2.thumbprint),
{
    let tp_eq = match (d1.thumbprint, d2.thumbprint) {
        (None, None) => true,
        (Some(a), Some(b)) => a == b,
        _ => false,
    };
    d1.v == d2.v && tp_eq
}

/// The hexadecimal digit of `n`, for `n < 16`.
pub open spec fn spec_hex_digit(n: nat) -> &'static str {
    if n == 0 {
        "0"
    } else if n == 1 {
        "1"
    } else if n == 2 {
        "2"
    } else if n == 3 {
        "3"
    } else if n == 4 {
        "4"
    } else if n == 5 {
        "5"
    } else if n == 6 {
        "6"
    } else if n == 7 {
        "7"
    } else if n == 8 {
        "8"
    } else if n == 9 {
        "9"
    } else if n == 10 {
        "a"
    } else if n == 11 {
        "b"
    } else if n == 12 {
        "c"
    } else if n == 13 {
        "d"
    } else if n == 14 {
        "e"
    } else {
        "f"
    }
}

/// Four hexadecimal digits, most significant first.
pub open spec fn spec_hex4(n: u16) -> Seq<char> {
    spec_hex_digit((n as nat / 4096) % 16)@ + spec_hex_digit((n as nat / 256) % 16)@
        + spec_hex_digit((n as nat / 16) % 16)@ + spec_hex_digit(n as nat % 16)@
}

fn hex_digit(n: usize) -> (r: &'static str)
    requires
        n < 16,
    ensures
        r@ == spec_hex_digit(n as nat)@,
{
    if n == 0 {
        "0"
    } else if n == 1 {
        "1"
    } else if n == 2 {
        "2"
    } else if n == 3 {
        "3"
    } else if n == 4 {
        "4"
    } else if n == 5 {
        "5"
    } else if n == 6 {
        "6"
    } else if n == 7 {
        "7"
    } else if n == 8 {
        "8"
    } else if n == 9 {
        "9"
    } else if n == 10 {
        "a"
    } else if n == 11 {
        "b"
    } else if n == 12 {
        "c"
    } else if n == 13 {
        "d"
    } else if n == 14 {
        "e"
    } else {
        "f"
    }
}

/// Write `n` as four hexadecimal digits.
pub fn hex4(n: u16) -> (r: String)
    ensures
        r@ == spec_hex4(n),
{
    let u = n as usize;
    let mut s = String::from_str(hex_digit((u / 4096) % 16));
    s.append(hex_digit((u / 256) % 16));
    s.append(hex_digit((u / 16) % 16));
    s.append(hex_digit(u % 16));
    s
}

} // verus!
