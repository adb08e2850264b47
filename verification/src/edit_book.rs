//! The serverbound packet that edits a book and quill: the slot, the pages
//! and an optional title, with limits on how many pages and how long each
//! text may be.

use vstd::prelude::*;
use std::borrow::ToOwned;

use crate::varint::{read_varint_spec, ReadingError, VarInt, VarIntScan};
use crate::protocol::ServerPacket;
use crate::wire::{parse_bool, parse_string, read_bool, read_matches, read_string_bounded, Parsed};

verus! {

/// The most pages a book may have.
pub const MAX_PAGE_COUNT: usize = 100;

/// The most bytes one page may hold.
pub const MAX_PAGE_LENGTH: usize = 8192;

/// The most bytes a title may hold.
pub const MAX_TITLE_LENGTH: usize = 128;

/// A book edit sent by the client.
pub struct SEditBook {
    pub slot: VarInt,
    pub pages: Vec<String>,
    pub title: Option<String>,
}

/// Abstract value of a book edit.
pub struct EditBookView {
    pub slot: i32,
    pub pages: Seq<Seq<char>>,
    pub title: Option<Seq<char>>,
}

impl View for SEditBook {
    type V = EditBookView;

    open spec fn view(&self) -> EditBookView {
        EditBookView {
            slot: self.slot.0,
            pages: self.pages@.map_values(|p: String| p@),
            title: match self.title {
                Some(t) => Some(t@),
                None => None,
            },
        }
    }
}

/// Reading `count` strings of at most `bound` bytes one after another.
pub open spec fn parse_pages(s: Seq<u8>, count: nat, bound: nat) -> Parsed<Seq<Seq<char>>>
    decreases count,
{
    if count == 0 {
        Parsed::Value(Seq::empty(), 0)
    } else {
        match parse_pages(s, (count - 1) as nat, bound) {
            Parsed::Value(pages, n) => match parse_string(s.skip(n as int), bound) {
                Parsed::Value(page, m) => Parsed::Value(pages.push(page), n + m),
                Parsed::Incomplete => Parsed::Incomplete,
                Parsed::TooLarge => Parsed::TooLarge,
                Parsed::Malformed => Parsed::Malformed,
            },
            Parsed::Incomplete => Parsed::Incomplete,
            Parsed::TooLarge => Parsed::TooLarge,
            Parsed::Malformed => Parsed::Malformed,
        }
    }
}

/// Reading an optional title: a presence flag, then the string.
pub open spec fn parse_title(s: Seq<u8>) -> Parsed<Option<Seq<char>>> {
    match parse_bool(s) {
        Parsed::Value(present, n) => if present {
            match parse_string(s.skip(n as int), MAX_TITLE_LENGTH as nat) {
                Parsed::Value(t, m) => Parsed::Value(Some(t), n + m),
                Parsed::Incomplete => Parsed::Incomplete,
                Parsed::TooLarge => Parsed::TooLarge,
                Parsed::Malformed => Parsed::Malformed,
            }
        } else {
            Parsed::Value(None, n)
        },
        Parsed::Incomplete => Parsed::Incomplete,
        Parsed::TooLarge => Parsed::TooLarge,
        Parsed::Malformed => Parsed::Malformed,
    }
}

/// The page count the packet announces, when its first two VarInts read.
pub open spec fn announced_page_count(s: Seq<u8>) -> Option<i32> {
    match read_varint_spec(s) {
        VarIntScan::Done(_, n1) => match read_varint_spec(s.skip(n1 as int)) {
            VarIntScan::Done(c, _) => Some(c),
            _ => None,
        },
        _ => None,
    }
}

/// Reading a book edit: the slot, the page count (which must be between 0
/// and the page limit), the pages, then the optional title.
pub open spec fn parse_edit_book(s: Seq<u8>) -> Parsed<EditBookView> {
    match read_varint_spec(s) {
        VarIntScan::Done(slot, n1) => match read_varint_spec(s.skip(n1 as int)) {
            VarIntScan::Done(count, n2) => {
                if count < 0 || count > MAX_PAGE_COUNT {
                    Parsed::Malformed
                } else {
                    let s3 = s.skip((n1 + n2) as int);
                    match parse_pages(s3, count as nat, MAX_PAGE_LENGTH as nat) {
                        Parsed::Value(pages, n3) => match parse_title(s3.skip(n3 as int)) {
                            Parsed::Value(title, n4) => Parsed::Value(
                                EditBookView { slot, pages, title },
                                n1 + n2 + n3 + n4,
                            ),
                            Parsed::Incomplete => Parsed::Incomplete,
                            Parsed::TooLarge => Parsed::TooLarge,
                            Parsed::Malformed => Parsed::Malformed,
                        },
                        Parsed::Incomplete => Parsed::Incomplete,
                        Parsed::TooLarge => Parsed::TooLarge,
                        Parsed::Malformed => Parsed::Malformed,
                    }
                }
            },
            VarIntScan::Incomplete => Parsed::Incomplete,
            VarIntScan::TooLarge => Parsed::TooLarge,
        },
        VarIntScan::Incomplete => Parsed::Incomplete,
        VarIntScan::TooLarge => Parsed::TooLarge,
    }
}

/// A parsed string never reaches past the end of its input.
proof fn lemma_string_within(s: Seq<u8>, bound: nat)
    ensures
        parse_string(s, bound) matches Parsed::Value(_, n) ==> n <= s.len(),
{
}

/// Parsed pages never reach past the end of their input.
proof fn lemma_pages_within(s: Seq<u8>, count: nat, bound: nat)
    ensures
        parse_pages(s, count, bound) matches Parsed::Value(_, n) ==> n <= s.len(),
    decreases count,
{
    if count > 0 {
        lemma_pages_within(s, (count - 1) as nat, bound);
        if let Parsed::Value(_, n) = parse_pages(s, (count - 1) as nat, bound) {
            lemma_string_within(s.skip(n as int), bound);
        }
    }
}

/// Reads an optional title at `pos`.
fn read_title(buf: &[u8], pos: usize) -> (r: Result<(Option<String>, usize), ReadingError>)
    requires
        pos <= buf@.len(),
    ensures
        read_matches(
            r,
            parse_title(buf@.skip(pos as int)),
            pos as int,
            |t: Option<String>|
                match t {
                    Some(x) => Some(x@),
                    None => None,
                },
        ),
{
    let (present, p) = match read_bool(buf, pos) {
        Ok(v) => v,
        Err(e) => {
            return Err(e);
        },
    };
    if !present {
        return Ok((None, p));
    }
    assert(buf@.skip(p as int) =~= buf@.skip(pos as int).skip(1));
    match read_string_bounded(buf, p, MAX_TITLE_LENGTH) {
        Ok((t, q)) => Ok((Some(t), q)),
        Err(e) => Err(e),
    }
}

/// Once reading pages fails, reading more of them fails the same way.
proof fn lemma_pages_error_persists(s: Seq<u8>, k: nat, m: nat, bound: nat)
    requires
        k <= m,
        !(parse_pages(s, k, bound) is Value),
    ensures
        parse_pages(s, m, bound) == parse_pages(s, k, bound),
    decreases m,
{
    if m > k {
        lemma_pages_error_persists(s, k, (m - 1) as nat, bound);
    }
}

/// Reads `count` pages at `pos`.
fn read_pages(buf: &[u8], pos: usize, count: usize) -> (r: Result<(Vec<String>, usize), ReadingError>)
    requires
        pos <= buf@.len(),
    ensures
        read_matches(
            r,
            parse_pages(buf@.skip(pos as int), count as nat, MAX_PAGE_LENGTH as nat),
            pos as int,
            |v: Vec<String>| v@.map_values(|x: String| x@),
        ),
{
    let ghost s3 = buf@.skip(pos as int);
    let mut pages: Vec<String> = Vec::new();
    let mut p = pos;
    let mut i: usize = 0;
    assert(pages@.map_values(|x: String| x@) =~= Seq::<Seq<char>>::empty());
    while i < count
        invariant
            i <= count,
            pos <= p <= buf@.len(),
            s3 == buf@.skip(pos as int),
            parse_pages(s3, i as nat, MAX_PAGE_LENGTH as nat) == Parsed::Value(
                pages@.map_values(|x: String| x@),
                (p - pos) as nat,
            ),
        decreases count - i,
    {
        assert(buf@.skip(p as int) =~= s3.skip((p - pos) as int));
        let (page, q) = match read_string_bounded(buf, p, MAX_PAGE_LENGTH) {
            Ok(v) => v,
            Err(e) => {
                proof {
                    lemma_pages_error_persists(
                        s3,
                        (i + 1) as nat,
                        count as nat,
                        MAX_PAGE_LENGTH as nat,
                    );
                }
                return Err(e);
            },
        };
        proof {
            lemma_string_within(buf@.skip(p as int), MAX_PAGE_LENGTH as nat);
        }
        let ghost before = pages@;
        pages.push(page);
        p = q;
        i += 1;
        assert(pages@.map_values(|x: String| x@) =~= before.map_values(|x: String| x@).push(
            page@,
        ));
    }
    Ok((pages, p))
}

impl ServerPacket for SEditBook {
    /// Reads a book edit at `pos`; the page count must lie between 0 and
    /// the page limit, each page and the title within their byte limits.
    fn read(buf: &[u8], pos: usize) -> (r: Result<(SEditBook, usize), ReadingError>)
        ensures
            read_matches(r, parse_edit_book(buf@.skip(pos as int)), pos as int, |b: SEditBook| b@),
            match announced_page_count(buf@.skip(pos as int)) {
                Some(c) => (c < 0 ==> (r matches Err(ReadingError::Message(m)) && m@
                    == "Invalid edit book page count"@)) && (c > MAX_PAGE_COUNT ==> (
                r matches Err(ReadingError::Message(m)) && m@ == "Too many book pages"@)),
                None => true,
            },
    {
        let ghost s = buf@.skip(pos as int);
        let (slot, p1) = match VarInt::decode(buf, pos) {
            Ok(v) => v,
            Err(e) => {
                return Err(e);
            },
        };
        assert(buf@.skip(p1 as int) =~= s.skip((p1 - pos) as int));
        let (page_count, p2) = match VarInt::decode(buf, p1) {
            Ok(v) => v,
            Err(e) => {
                return Err(e);
            },
        };
        if page_count.0 < 0 {
            return Err(ReadingError::Message("Invalid edit book page count".to_owned()));
        }
        let count = page_count.0 as usize;
        if count > MAX_PAGE_COUNT {
            return Err(ReadingError::Message("Too many book pages".to_owned()));
        }
        assert(buf@.skip(p2 as int) =~= s.skip((p2 - pos) as int));
        let (pages, p3) = match read_pages(buf, p2, count) {
            Ok(v) => v,
            Err(e) => {
                return Err(e);
            },
        };
        proof {
            lemma_pages_within(buf@.skip(p2 as int), count as nat, MAX_PAGE_LENGTH as nat);
            assert(buf@.skip(p3 as int) =~= buf@.skip(p2 as int).skip((p3 - p2) as int));
        }
        let (title, e) = match read_title(buf, p3) {
            Ok(v) => v,
            Err(err) => {
                return Err(err);
            },
        };
        Ok((SEditBook { slot, pages, title }, e))
    }
}

} // verus!
