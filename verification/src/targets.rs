//! The target list: one host identifier per line.

use vstd::prelude::*;
use vstd::utf8::{
    decode_utf8, is_char_boundary, is_char_boundary_iff_is_leading_byte, pop_first_scalar,
    valid_utf8, valid_utf8_split,
};

verus! {

/// Why a text is no target list.
#[derive(PartialEq, Eq, Structural, Clone, Copy, Debug)]
pub enum TargetListError {
    /// The line at this position, counted from zero, is not valid UTF-8.
    NotText(usize),
}

/// Line feed, which ends a line.
pub const LINE_FEED: u8 = 10;

/// Carriage return, which is dropped where it stands right before the line
/// feed.
pub const CARRIAGE_RETURN: u8 = 13;

/// Position of the first line feed in `s`, or the length of `s` where it has
/// none.
pub open spec fn first_line_feed(s: Seq<u8>) -> int
    decreases s.len(),
{
    if s.len() == 0 || s[0] == LINE_FEED {
        0
    } else {
        1 + first_line_feed(s.subrange(1, s.len() as int))
    }
}

/// A line's content without the carriage return that ended it, if one did.
pub open spec fn without_carriage_return(line: Seq<u8>) -> Seq<u8> {
    if line.len() > 0 && line.last() == CARRIAGE_RETURN {
        line.drop_last()
    } else {
        line
    }
}

/// The lines of a text. Every line feed ends a line, whose carriage return
/// right before it, if any, does not belong to the line. What follows the
/// last line feed is a line too, taken as it stands, unless it is empty.
/// There is no header and no comment: blank lines are lines.
pub open spec fn lines_of(s: Seq<u8>) -> Seq<Seq<u8>>
    decreases s.len(),
{
    let k = first_line_feed(s);
    if s.len() == 0 {
        Seq::empty()
    } else if 0 <= k < s.len() {
        seq![without_carriage_return(s.subrange(0, k))] + lines_of(
            s.subrange(k + 1, s.len() as int),
        )
    } else {
        seq![s]
    }
}

/// The contents of a vector of lines.
pub open spec fn contents(lines: Seq<Vec<u8>>) -> Seq<Seq<u8>> {
    Seq::new(lines.len(), |i: int| lines[i]@)
}

/// `first_line_feed` is what its name says: no line feed stands before it,
/// and one stands at it unless it is the length.
pub proof fn lemma_first_line_feed(s: Seq<u8>)
    ensures
        0 <= first_line_feed(s) <= s.len(),
        forall|j: int| 0 <= j < first_line_feed(s) ==> s[j] != LINE_FEED,
        first_line_feed(s) < s.len() ==> s[first_line_feed(s)] == LINE_FEED,
    decreases s.len(),
{
    if s.len() == 0 || s[0] == LINE_FEED {
    } else {
        let rest = s.subrange(1, s.len() as int);
        lemma_first_line_feed(rest);
        assert forall|j: int| 0 <= j < first_line_feed(s) implies s[j] != LINE_FEED by {
            if j > 0 {
                assert(s[j] == rest[j - 1]);
            }
        }
        assert(first_line_feed(s) < s.len() ==> s[first_line_feed(s)] == rest[first_line_feed(
            rest,
        )]);
    }
}

/// The first position that holds a line feed, or the length, is
/// `first_line_feed`.
pub proof fn lemma_first_line_feed_is(s: Seq<u8>, k: int)
    requires
        0 <= k <= s.len(),
        forall|j: int| 0 <= j < k ==> s[j] != LINE_FEED,
        k < s.len() ==> s[k] == LINE_FEED,
    ensures
        first_line_feed(s) == k,
{
    lemma_first_line_feed(s);
    let f = first_line_feed(s);
    if f < k {
        assert(s[f] == LINE_FEED);
    } else if k < f {
        assert(s[k] == LINE_FEED);
    }
}

/// Cutting a valid UTF-8 text right before a byte below 128 leaves valid
/// UTF-8 on both sides, and so does dropping that byte from the right side.
pub proof fn lemma_cut_at_ascii(s: Seq<u8>, k: int)
    requires
        valid_utf8(s),
        0 <= k < s.len(),
        s[k] <= 0x7f,
    ensures
        valid_utf8(s.subrange(0, k)),
        valid_utf8(s.subrange(k, s.len() as int)),
        valid_utf8(s.subrange(k + 1, s.len() as int)),
{
    is_char_boundary_iff_is_leading_byte(s, k);
    assert(is_char_boundary(s, k));
    valid_utf8_split(s, k);
    let right = s.subrange(k, s.len() as int);
    assert(right[0] == s[k]);
    assert(pop_first_scalar(right) =~= s.subrange(k + 1, s.len() as int));
}

/// Every line of a valid UTF-8 text is valid UTF-8: line feed and carriage
/// return are single bytes that stand in no other character's encoding.
pub proof fn lemma_lines_of_text_are_text(s: Seq<u8>)
    requires
        valid_utf8(s),
    ensures
        forall|i: int| 0 <= i < lines_of(s).len() ==> valid_utf8(#[trigger] lines_of(s)[i]),
    decreases s.len(),
{
    let k = first_line_feed(s);
    lemma_first_line_feed(s);
    if s.len() != 0 && k < s.len() {
        let raw = s.subrange(0, k);
        let rest = s.subrange(k + 1, s.len() as int);
        lemma_cut_at_ascii(s, k);
        lemma_lines_of_text_are_text(rest);
        if raw.len() > 0 && raw.last() == CARRIAGE_RETURN {
            lemma_cut_at_ascii(raw, raw.len() - 1);
            assert(raw.drop_last() =~= raw.subrange(0, raw.len() - 1));
        }
        assert(valid_utf8(without_carriage_return(raw)));
        assert forall|i: int| 0 <= i < lines_of(s).len() implies valid_utf8(
            #[trigger] lines_of(s)[i],
        ) by {
            if i > 0 {
                assert(lines_of(s)[i] == lines_of(rest)[i - 1]);
            }
        }
    }
}

/// Splits a text into its lines.
pub fn split_lines(bytes: &Vec<u8>) -> (lines: Vec<Vec<u8>>)
    ensures
        contents(lines@) == lines_of(bytes@),
{
    let mut lines: Vec<Vec<u8>> = Vec::new();
    let mut current: Vec<u8> = Vec::new();
    let mut start: usize = 0;
    let mut i: usize = 0;
    proof {
        assert(bytes@.subrange(0, bytes@.len() as int) =~= bytes@);
        assert(contents(lines@) + lines_of(bytes@) =~= lines_of(bytes@));
    }
    while i < bytes.len()
        invariant
            start <= i <= bytes@.len(),
            forall|j: int| start <= j < i ==> bytes@[j] != LINE_FEED,
            current@ == bytes@.subrange(start as int, i as int),
            contents(lines@) + lines_of(bytes@.subrange(start as int, bytes@.len() as int))
                == lines_of(bytes@),
        decreases bytes@.len() - i,
    {
        let b = bytes[i];
        if b == LINE_FEED {
            let ghost rest = bytes@.subrange(start as int, bytes@.len() as int);
            let ghost done = contents(lines@);
            let ghost raw = current@;
            proof {
                lemma_first_line_feed_is(rest, i - start);
                assert(rest.subrange(0, i - start) =~= raw);
                assert(rest.subrange(i - start + 1, rest.len() as int) =~= bytes@.subrange(
                    i + 1,
                    bytes@.len() as int,
                ));
            }
            let n = current.len();
            if n > 0 && current[n - 1] == CARRIAGE_RETURN {
                current.pop();
            }
            assert(current@ =~= without_carriage_return(raw));
            lines.push(current);
            current = Vec::new();
            start = i + 1;
            proof {
                assert(contents(lines@) =~= done + seq![without_carriage_return(raw)]);
                assert(contents(lines@) + lines_of(
                    bytes@.subrange(start as int, bytes@.len() as int),
                ) =~= done + lines_of(rest));
                assert(current@ =~= bytes@.subrange(start as int, i + 1));
            }
        } else {
            current.push(b);
            assert(current@ =~= bytes@.subrange(start as int, i + 1));
        }
        i = i + 1;
    }
    let ghost rest = bytes@.subrange(start as int, bytes@.len() as int);
    if start < bytes.len() {
        let ghost done = contents(lines@);
        proof {
            lemma_first_line_feed_is(rest, rest.len() as int);
            assert(lines_of(rest) =~= seq![rest]);
        }
        lines.push(current);
        assert(contents(lines@) =~= done + seq![rest]);
    } else {
        assert(lines_of(rest) =~= Seq::<Seq<u8>>::empty());
        assert(contents(lines@) + lines_of(rest) =~= contents(lines@));
    }
    lines
}

/// `String::from_utf8` on a copy of the bytes: the bytes as text where they
/// are valid UTF-8, and nothing where they are not.
#[verifier::external_body]
fn decode_line(bytes: &Vec<u8>) -> (text: Option<String>)
    ensures
        text is Some <==> valid_utf8(bytes@),
        text is Some ==> text->0@ == decode_utf8(bytes@),
{
    String::from_utf8(bytes.clone()).ok()
}

/// Reads a target list: the lines of the text, in order, each one a host
/// identifier. Fails at the first line that is not valid UTF-8, which a text
/// that is valid UTF-8 as a whole does not have; no line is skipped or
/// trimmed otherwise.
pub fn read_targets(bytes: &Vec<u8>) -> (r: Result<Vec<String>, TargetListError>)
    ensures
        valid_utf8(bytes@) ==> r is Ok,
        match r {
            Ok(targets) => {
                &&& targets@.len() == lines_of(bytes@).len()
                &&& forall|i: int|
                    0 <= i < targets@.len() ==> valid_utf8(#[trigger] lines_of(bytes@)[i])
                        && targets@[i]@ == decode_utf8(lines_of(bytes@)[i])
            },
            Err(TargetListError::NotText(at)) => {
                &&& at < lines_of(bytes@).len()
                &&& !valid_utf8(lines_of(bytes@)[at as int])
                &&& forall|i: int| 0 <= i < at ==> valid_utf8(#[trigger] lines_of(bytes@)[i])
            },
        },
{
    let lines = split_lines(bytes);
    let ghost all = lines_of(bytes@);
    proof {
        if valid_utf8(bytes@) {
            lemma_lines_of_text_are_text(bytes@);
        }
    }
    let mut targets: Vec<String> = Vec::new();
    let mut at: usize = 0;
    while at < lines.len()
        invariant
            at <= lines@.len(),
            targets@.len() == at,
            contents(lines@) == all,
            all == lines_of(bytes@),
            valid_utf8(bytes@) ==> forall|i: int|
                0 <= i < all.len() ==> valid_utf8(#[trigger] all[i]),
            forall|i: int|
                0 <= i < at ==> valid_utf8(#[trigger] all[i]) && targets@[i]@ == decode_utf8(
                    all[i],
                ),
        decreases lines@.len() - at,
    {
        assert(lines@[at as int]@ == contents(lines@)[at as int]);
        match decode_line(&lines[at]) {
            Some(text) => {
                targets.push(text);
            },
            None => {
                return Err(TargetListError::NotText(at));
            },
        }
        at = at + 1;
    }
    Ok(targets)
}

} // verus!
