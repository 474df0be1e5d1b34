//! The shape every record decoder has, and count-prefixed lists of records.

use crate::cursor::{fits, parse_u16_le, parse_u32_le, parse_u8, Cursor};
use vstd::prelude::*;

verus! {

/// A record with a byte-level model.
///
/// `parse` says which value the bytes at an offset spell and where the record
/// ends, or that they spell none. `read` is the decoder, held to `parse`;
/// after a failed `read` the cursor's position is unspecified. `replicate`
/// makes a copy with the same model.
pub trait Record: Sized {
    /// The mathematical value of a decoded record.
    type Model;

    spec fn model(&self) -> Self::Model;

    spec fn parse(s: Seq<u8>, at: int) -> Option<(Self::Model, int)>;

    fn read(cur: &mut Cursor) -> (r: Option<Self>)
        ensures
            final(cur).bytes() == old(cur).bytes(),
            match r {
                Some(v) => Self::parse(old(cur).bytes(), old(cur).offset()) == Some(
                    (v.model(), final(cur).offset()),
                ),
                None => Self::parse(old(cur).bytes(), old(cur).offset()) is None,
            },
    ;

    fn replicate(&self) -> (r: Self)
        ensures
            r.model() == self.model(),
    ;
}

/// Reads a record, and goes back to where the cursor was if there is none.
pub fn read_or_stay<T: Record>(cur: &mut Cursor) -> (r: Option<T>)
    ensures
        final(cur).bytes() == old(cur).bytes(),
        match r {
            Some(v) => T::parse(old(cur).bytes(), old(cur).offset()) == Some(
                (v.model(), final(cur).offset()),
            ),
            None => T::parse(old(cur).bytes(), old(cur).offset()) is None && final(cur).offset()
                == old(cur).offset(),
        },
{
    let start: u64 = cur.position();
    let r = T::read(cur);
    if r.is_none() {
        cur.seek_to(start);
    }
    r
}

/// The models of a sequence of records, item by item.
pub open spec fn models<T: Record>(v: Seq<T>) -> Seq<T::Model> {
    v.map_values(|x: T| x.model())
}

/// `n` records laid out back to back from offset `at` on.
pub open spec fn parse_many<T: Record>(s: Seq<u8>, at: int, n: nat) -> Option<
    (Seq<T::Model>, int),
>
    decreases n,
{
    if n == 0 {
        Some((Seq::empty(), at))
    } else {
        match parse_many::<T>(s, at, (n - 1) as nat) {
            None => None,
            Some((init, mid)) => match T::parse(s, mid) {
                None => None,
                Some((last, end)) => Some((init.push(last), end)),
            },
        }
    }
}

/// Once a prefix of a list fails to parse, every longer list fails too.
pub proof fn lemma_parse_many_fails_on<T: Record>(s: Seq<u8>, at: int, k: nat, n: nat)
    requires
        k <= n,
        parse_many::<T>(s, at, k) is None,
    ensures
        parse_many::<T>(s, at, n) is None,
    decreases n,
{
    if k < n {
        lemma_parse_many_fails_on::<T>(s, at, k, (n - 1) as nat);
    }
}

/// A list of one record more is its first record and the list behind it.
pub proof fn lemma_parse_many_front<T: Record>(s: Seq<u8>, at: int, n: nat)
    ensures
        parse_many::<T>(s, at, n + 1) == match T::parse(s, at) {
            None => None,
            Some((head, mid)) => match parse_many::<T>(s, mid, n) {
                None => None,
                Some((tail, end)) => Some((seq![head] + tail, end)),
            },
        },
    decreases n,
{
    if n == 0 {
        assert(parse_many::<T>(s, at, 0) == Some((Seq::<T::Model>::empty(), at)));
        match T::parse(s, at) {
            None => {},
            Some((head, mid)) => {
                assert(Seq::<T::Model>::empty().push(head) =~= seq![head] + Seq::<
                    T::Model,
                >::empty());
            },
        }
    } else {
        lemma_parse_many_front::<T>(s, at, (n - 1) as nat);
        match T::parse(s, at) {
            None => {},
            Some((head, mid)) => match parse_many::<T>(s, mid, (n - 1) as nat) {
                None => {},
                Some((tail, end)) => match T::parse(s, end) {
                    None => {},
                    Some((last, after)) => {
                        assert((seq![head] + tail).push(last) =~= seq![head] + tail.push(last));
                    },
                },
            },
        }
    }
}

/// Reads `n` records laid out back to back.
pub fn read_many<T: Record>(cur: &mut Cursor, n: u64) -> (r: Option<Vec<T>>)
    ensures
        final(cur).bytes() == old(cur).bytes(),
        match r {
            Some(v) => parse_many::<T>(old(cur).bytes(), old(cur).offset(), n as nat) == Some(
                (models(v@), final(cur).offset()),
            ),
            None => parse_many::<T>(old(cur).bytes(), old(cur).offset(), n as nat) is None,
        },
{
    let mut out: Vec<T> = Vec::new();
    let mut i: u64 = 0;
    assert(models(out@) =~= Seq::<T::Model>::empty());
    while i < n
        invariant
            i <= n,
            cur.bytes() == old(cur).bytes(),
            parse_many::<T>(old(cur).bytes(), old(cur).offset(), i as nat) == Some(
                (models(out@), cur.offset()),
            ),
        decreases n - i,
    {
        let ghost before = out@;
        match T::read(cur) {
            None => {
                proof {
                    lemma_parse_many_fails_on::<T>(
                        old(cur).bytes(),
                        old(cur).offset(),
                        (i + 1) as nat,
                        n as nat,
                    );
                }
                return None;
            },
            Some(item) => {
                out.push(item);
                assert(models(out@) =~= models(before).push(item.model()));
            },
        }
        i = i + 1;
    }
    Some(out)
}

/// A list behind a one-byte count.
pub open spec fn parse_list_u8<T: Record>(s: Seq<u8>, at: int) -> Option<(Seq<T::Model>, int)> {
    match parse_u8(s, at) {
        None => None,
        Some((count, at1)) => parse_many::<T>(s, at1, count as nat),
    }
}

/// A list behind a little-endian two-byte count.
pub open spec fn parse_list_u16<T: Record>(s: Seq<u8>, at: int) -> Option<(Seq<T::Model>, int)> {
    match parse_u16_le(s, at) {
        None => None,
        Some((count, at1)) => parse_many::<T>(s, at1, count as nat),
    }
}

/// A list behind a little-endian four-byte count.
pub open spec fn parse_list_u32<T: Record>(s: Seq<u8>, at: int) -> Option<(Seq<T::Model>, int)> {
    match parse_u32_le(s, at) {
        None => None,
        Some((count, at1)) => parse_many::<T>(s, at1, count as nat),
    }
}

/// Reads a one-byte count and that many records.
pub fn read_list_u8<T: Record>(cur: &mut Cursor) -> (r: Option<Vec<T>>)
    ensures
        final(cur).bytes() == old(cur).bytes(),
        match r {
            Some(v) => parse_list_u8::<T>(old(cur).bytes(), old(cur).offset()) == Some(
                (models(v@), final(cur).offset()),
            ),
            None => parse_list_u8::<T>(old(cur).bytes(), old(cur).offset()) is None,
        },
{
    let count: u8 = cur.read_u8()?;
    read_many::<T>(cur, count as u64)
}

/// Reads a two-byte count and that many records.
pub fn read_list_u16<T: Record>(cur: &mut Cursor) -> (r: Option<Vec<T>>)
    ensures
        final(cur).bytes() == old(cur).bytes(),
        match r {
            Some(v) => parse_list_u16::<T>(old(cur).bytes(), old(cur).offset()) == Some(
                (models(v@), final(cur).offset()),
            ),
            None => parse_list_u16::<T>(old(cur).bytes(), old(cur).offset()) is None,
        },
{
    let count: u16 = cur.read_u16_le()?;
    read_many::<T>(cur, count as u64)
}

/// Reads a four-byte count and that many records.
pub fn read_list_u32<T: Record>(cur: &mut Cursor) -> (r: Option<Vec<T>>)
    ensures
        final(cur).bytes() == old(cur).bytes(),
        match r {
            Some(v) => parse_list_u32::<T>(old(cur).bytes(), old(cur).offset()) == Some(
                (models(v@), final(cur).offset()),
            ),
            None => parse_list_u32::<T>(old(cur).bytes(), old(cur).offset()) is None,
        },
{
    let count: u32 = cur.read_u32_le()?;
    read_many::<T>(cur, count as u64)
}

/// Two parallel lists behind one one-byte count: first the type bytes, then
/// as many values.
pub open spec fn parse_typed_list<T: Record>(s: Seq<u8>, at: int) -> Option<
    ((Seq<u8>, Seq<T::Model>), int),
> {
    match parse_u8(s, at) {
        None => None,
        Some((count, at1)) => match parse_many::<u8>(s, at1, count as nat) {
            None => None,
            Some((types, at2)) => match parse_many::<T>(s, at2, count as nat) {
                None => None,
                Some((values, at3)) => Some(((types, values), at3)),
            },
        },
    }
}

/// Reads two parallel lists behind one one-byte count.
pub fn read_typed_list<T: Record>(cur: &mut Cursor) -> (r: Option<(Vec<u8>, Vec<T>)>)
    ensures
        final(cur).bytes() == old(cur).bytes(),
        match r {
            Some(v) => parse_typed_list::<T>(old(cur).bytes(), old(cur).offset()) == Some(
                ((v.0@, models(v.1@)), final(cur).offset()),
            ),
            None => parse_typed_list::<T>(old(cur).bytes(), old(cur).offset()) is None,
        },
{
    let count: u8 = cur.read_u8()?;
    let types: Vec<u8> = read_many::<u8>(cur, count as u64)?;
    let values: Vec<T> = read_many::<T>(cur, count as u64)?;
    assert(models(types@) =~= types@);
    Some((types, values))
}

impl Record for u8 {
    type Model = u8;

    open spec fn model(&self) -> u8 {
        *self
    }

    open spec fn parse(s: Seq<u8>, at: int) -> Option<(u8, int)> {
        parse_u8(s, at)
    }

    fn read(cur: &mut Cursor) -> (r: Option<u8>) {
        cur.read_u8()
    }

    fn replicate(&self) -> (r: Self) {
        *self
    }
}

impl Record for u16 {
    type Model = u16;

    open spec fn model(&self) -> u16 {
        *self
    }

    open spec fn parse(s: Seq<u8>, at: int) -> Option<(u16, int)> {
        parse_u16_le(s, at)
    }

    fn read(cur: &mut Cursor) -> (r: Option<u16>) {
        cur.read_u16_le()
    }

    fn replicate(&self) -> (r: Self) {
        *self
    }
}

impl Record for u32 {
    type Model = u32;

    open spec fn model(&self) -> u32 {
        *self
    }

    open spec fn parse(s: Seq<u8>, at: int) -> Option<(u32, int)> {
        parse_u32_le(s, at)
    }

    fn read(cur: &mut Cursor) -> (r: Option<u32>) {
        cur.read_u32_le()
    }

    fn replicate(&self) -> (r: Self) {
        *self
    }
}

impl Record for (u32, u8) {
    type Model = (u32, u8);

    open spec fn model(&self) -> (u32, u8) {
        *self
    }

    open spec fn parse(s: Seq<u8>, at: int) -> Option<((u32, u8), int)> {
        match parse_u32_le(s, at) {
            None => None,
            Some((a, at1)) => match parse_u8(s, at1) {
                None => None,
                Some((b, at2)) => Some(((a, b), at2)),
            },
        }
    }

    fn read(cur: &mut Cursor) -> (r: Option<(u32, u8)>) {
        let a: u32 = cur.read_u32_le()?;
        let b: u8 = cur.read_u8()?;
        Some((a, b))
    }

    fn replicate(&self) -> (r: Self) {
        *self
    }
}

impl Record for (u32, u32) {
    type Model = (u32, u32);

    open spec fn model(&self) -> (u32, u32) {
        *self
    }

    open spec fn parse(s: Seq<u8>, at: int) -> Option<((u32, u32), int)> {
        match parse_u32_le(s, at) {
            None => None,
            Some((a, at1)) => match parse_u32_le(s, at1) {
                None => None,
                Some((b, at2)) => Some(((a, b), at2)),
            },
        }
    }

    fn read(cur: &mut Cursor) -> (r: Option<(u32, u32)>) {
        let a: u32 = cur.read_u32_le()?;
        let b: u32 = cur.read_u32_le()?;
        Some((a, b))
    }

    fn replicate(&self) -> (r: Self) {
        *self
    }
}

impl Record for (u32, u32, u32) {
    type Model = (u32, u32, u32);

    open spec fn model(&self) -> (u32, u32, u32) {
        *self
    }

    open spec fn parse(s: Seq<u8>, at: int) -> Option<((u32, u32, u32), int)> {
        match parse_u32_le(s, at) {
            None => None,
            Some((a, at1)) => match parse_u32_le(s, at1) {
                None => None,
                Some((b, at2)) => match parse_u32_le(s, at2) {
                    None => None,
                    Some((c, at3)) => Some(((a, b, c), at3)),
                },
            },
        }
    }

    fn read(cur: &mut Cursor) -> (r: Option<(u32, u32, u32)>) {
        let a: u32 = cur.read_u32_le()?;
        let b: u32 = cur.read_u32_le()?;
        let c: u32 = cur.read_u32_le()?;
        Some((a, b, c))
    }

    fn replicate(&self) -> (r: Self) {
        *self
    }
}

impl Record for (u32, u32, u32, u32) {
    type Model = (u32, u32, u32, u32);

    open spec fn model(&self) -> (u32, u32, u32, u32) {
        *self
    }

    open spec fn parse(s: Seq<u8>, at: int) -> Option<((u32, u32, u32, u32), int)> {
        match parse_u32_le(s, at) {
            None => None,
            Some((a, at1)) => match parse_u32_le(s, at1) {
                None => None,
                Some((b, at2)) => match parse_u32_le(s, at2) {
                    None => None,
                    Some((c, at3)) => match parse_u32_le(s, at3) {
                        None => None,
                        Some((d, at4)) => Some(((a, b, c, d), at4)),
                    },
                },
            },
        }
    }

    fn read(cur: &mut Cursor) -> (r: Option<(u32, u32, u32, u32)>) {
        let a: u32 = cur.read_u32_le()?;
        let b: u32 = cur.read_u32_le()?;
        let c: u32 = cur.read_u32_le()?;
        let d: u32 = cur.read_u32_le()?;
        Some((a, b, c, d))
    }

    fn replicate(&self) -> (r: Self) {
        *self
    }
}

impl Record for [u8; 3] {
    type Model = Seq<u8>;

    open spec fn model(&self) -> Seq<u8> {
        self@
    }

    open spec fn parse(s: Seq<u8>, at: int) -> Option<(Seq<u8>, int)> {
        if fits(s, at, 3) {
            Some((s.subrange(at, at + 3), at + 3))
        } else {
            None
        }
    }

    fn read(cur: &mut Cursor) -> (r: Option<[u8; 3]>) {
        let a: u8 = cur.read_u8()?;
        let b: u8 = cur.read_u8()?;
        let c: u8 = cur.read_u8()?;
        let v: [u8; 3] = [a, b, c];
        assert(v@ =~= old(cur).bytes().subrange(old(cur).offset(), old(cur).offset() + 3));
        Some(v)
    }

    fn replicate(&self) -> (r: Self) {
        *self
    }
}

impl Record for [u8; 4] {
    type Model = Seq<u8>;

    open spec fn model(&self) -> Seq<u8> {
        self@
    }

    open spec fn parse(s: Seq<u8>, at: int) -> Option<(Seq<u8>, int)> {
        if fits(s, at, 4) {
            Some((s.subrange(at, at + 4), at + 4))
        } else {
            None
        }
    }

    fn read(cur: &mut Cursor) -> (r: Option<[u8; 4]>) {
        let a: u8 = cur.read_u8()?;
        let b: u8 = cur.read_u8()?;
        let c: u8 = cur.read_u8()?;
        let d: u8 = cur.read_u8()?;
        let v: [u8; 4] = [a, b, c, d];
        assert(v@ =~= old(cur).bytes().subrange(old(cur).offset(), old(cur).offset() + 4));
        Some(v)
    }

    fn replicate(&self) -> (r: Self) {
        *self
    }
}

/// Copies a list of records, item by item.
pub fn replicate_all<T: Record>(v: &Vec<T>) -> (r: Vec<T>)
    ensures
        models(r@) == models(v@),
{
    let mut out: Vec<T> = Vec::new();
    let mut i: usize = 0;
    while i < v.len()
        invariant
            i <= v@.len(),
            out@.len() == i,
            forall|j: int| 0 <= j < i ==> (#[trigger] out@[j]).model() == v@[j].model(),
        decreases v@.len() - i,
    {
        out.push(v[i].replicate());
        i = i + 1;
    }
    assert(models(out@) =~= models(v@));
    out
}

/// Copies a list of plain values.
pub fn replicate_plain<T: Record<Model = T>>(v: &Vec<T>) -> (r: Vec<T>)
    requires
        forall|x: T| #[trigger] x.model() == x,
    ensures
        r@ == v@,
{
    let out = replicate_all(v);
    assert(models(out@) =~= out@);
    assert(models(v@) =~= v@);
    out
}

} // verus!
