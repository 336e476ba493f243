//! The compact form of a signed token: three segments of ASCII text, parted by
//! two dots.

use vstd::prelude::*;
use vstd::string::*;
use vstd::utf8::is_ascii_chars;

verus! {

/// `first` and `second` are the places of the only two dots in `token`.
pub open spec fn is_frame(token: Seq<char>, first: int, second: int) -> bool {
    &&& 0 <= first < second < token.len()
    &&& token[first] == '.'
    &&& token[second] == '.'
    &&& forall|k: int|
        0 <= k < token.len() && k != first && k != second ==> #[trigger] token[k] != '.'
}

/// A token is well framed when it is ASCII text with exactly two dots.
pub open spec fn well_framed(token: Seq<char>) -> bool {
    is_ascii_chars(token) && exists|i: int, j: int| is_frame(token, i, j)
}

/// The places of the two dots of a well-framed token.
pub open spec fn frame_of(token: Seq<char>) -> (int, int) {
    choose|i: int, j: int| is_frame(token, i, j)
}

/// The place of the first dot of a well-framed token.
pub open spec fn first_dot(token: Seq<char>) -> int {
    frame_of(token).0
}

/// The place of the second dot of a well-framed token.
pub open spec fn second_dot(token: Seq<char>) -> int {
    frame_of(token).1
}

/// The header segment: what stands before the first dot.
pub open spec fn header_of(token: Seq<char>) -> Seq<char> {
    token.subrange(0, first_dot(token))
}

/// The payload segment: what stands between the dots.
pub open spec fn payload_of(token: Seq<char>) -> Seq<char> {
    token.subrange(first_dot(token) + 1, second_dot(token))
}

/// The signature segment: what stands after the second dot.
pub open spec fn signature_of(token: Seq<char>) -> Seq<char> {
    token.subrange(second_dot(token) + 1, token.len() as int)
}

/// The text that was signed: header, dot and payload.
pub open spec fn signing_input_of(token: Seq<char>) -> Seq<char> {
    token.subrange(0, second_dot(token))
}

/// A token has at most one frame.
pub proof fn lemma_frame_unique(token: Seq<char>, i: int, j: int, k: int, l: int)
    requires
        is_frame(token, i, j),
        is_frame(token, k, l),
    ensures
        i == k,
        j == l,
{
    assert(token[i] == '.');
    assert(token[j] == '.');
    assert(token[k] == '.');
    assert(token[l] == '.');
}

/// The frame of a token is where its two dots are.
pub proof fn lemma_frame_dots(token: Seq<char>, i: int, j: int)
    requires
        is_frame(token, i, j),
    ensures
        first_dot(token) == i,
        second_dot(token) == j,
{
    let (a, b) = frame_of(token);
    lemma_frame_unique(token, i, j, a, b);
}

/// The segments of a well-framed token hold no dot, and put together again
/// with a dot between them they are the token.
pub proof fn lemma_segments_make_the_token(token: Seq<char>)
    requires
        well_framed(token),
    ensures
        token == header_of(token) + seq!['.'] + payload_of(token) + seq!['.'] + signature_of(
            token,
        ),
        signing_input_of(token) == header_of(token) + seq!['.'] + payload_of(token),
        !header_of(token).contains('.'),
        !payload_of(token).contains('.'),
        !signature_of(token).contains('.'),
{
    let (first, second) = choose|i: int, j: int| is_frame(token, i, j);
    lemma_frame_dots(token, first, second);
    assert(token =~= header_of(token) + seq!['.'] + payload_of(token) + seq!['.'] + signature_of(
        token,
    ));
    assert(signing_input_of(token) =~= header_of(token) + seq!['.'] + payload_of(token));
    assert forall|k: int| 0 <= k < header_of(token).len() implies header_of(token)[k] != '.' by {
        assert(header_of(token)[k] == token[k]);
    }
    assert forall|k: int| 0 <= k < payload_of(token).len() implies payload_of(token)[k]
        != '.' by {
        assert(payload_of(token)[k] == token[first + 1 + k]);
    }
    assert forall|k: int| 0 <= k < signature_of(token).len() implies signature_of(token)[k]
        != '.' by {
        assert(signature_of(token)[k] == token[second + 1 + k]);
    }
}

/// The segments of a token, borrowed from it.
#[derive(Clone, Copy, Debug, PartialEq, Eq)]
pub struct TokenParts<'a> {
    pub header: &'a str,
    pub payload: &'a str,
    pub signature: &'a str,
    pub signing_input: &'a str,
}

/// The first dot of `text` at or after `from`, or the length of `text` if none follows.
fn find_dot(text: &str, from: usize) -> (pos: usize)
    requires
        is_ascii_chars(text@),
        from <= text@.len(),
    ensures
        from <= pos <= text@.len(),
        forall|k: int| from <= k < pos ==> #[trigger] text@[k] != '.',
        pos < text@.len() ==> text@[pos as int] == '.',
{
    let len: usize = text.as_bytes().len();
    proof {
        is_ascii_spec_bytes(text);
    }
    let mut pos: usize = from;
    while pos < len
        invariant
            is_ascii_chars(text@),
            len == text@.len(),
            from <= pos <= len,
            forall|k: int| from <= k < pos ==> #[trigger] text@[k] != '.',
        decreases len - pos,
    {
        let byte: u8 = text.get_ascii(pos);
        if byte == 46u8 {
            return pos;
        }
        pos = pos + 1;
    }
    pos
}

/// Takes a token apart at its two dots. A token that is not ASCII, or has
/// fewer or more than two dots, has no parts.
pub fn split_token<'a>(token: &'a str) -> (res: Option<TokenParts<'a>>)
    ensures
        res is Some <==> well_framed(token@),
        res matches Some(parts) ==> {
            &&& parts.header@ == header_of(token@)
            &&& parts.payload@ == payload_of(token@)
            &&& parts.signature@ == signature_of(token@)
            &&& parts.signing_input@ == signing_input_of(token@)
        },
{
    broadcast use is_ascii_spec_bytes;

    if !token.is_ascii() {
        return None;
    }
    let len: usize = token.as_bytes().len();
    let first: usize = find_dot(token, 0);
    if first >= len {
        assert forall|i: int, j: int| !is_frame(token@, i, j) by {
            if is_frame(token@, i, j) {
                assert(token@[i] != '.');
            }
        }
        return None;
    }
    let second: usize = find_dot(token, first + 1);
    if second >= len {
        assert forall|i: int, j: int| !is_frame(token@, i, j) by {
            if is_frame(token@, i, j) {
                assert(token@[i] == '.');
                assert(token@[j] == '.');
                if i < first {
                    assert(token@[i] != '.');
                } else if i == first {
                    assert(token@[j] != '.');
                } else {
                    assert(token@[i] != '.');
                }
            }
        }
        return None;
    }
    let third: usize = find_dot(token, second + 1);
    if third < len {
        assert forall|i: int, j: int| !is_frame(token@, i, j) by {
            if is_frame(token@, i, j) {
                assert(token@[first as int] == '.');
                assert(token@[second as int] == '.');
                assert(token@[third as int] == '.');
            }
        }
        return None;
    }
    proof {
        assert forall|k: int|
            0 <= k < token@.len() && k != first && k != second implies #[trigger] token@[k]
            != '.' by {
            if k < first {
            } else if k < second {
            } else {
            }
        }
        assert(is_frame(token@, first as int, second as int));
        lemma_frame_dots(token@, first as int, second as int);
    }
    Some(
        TokenParts {
            header: token.substring_ascii(0, first),
            payload: token.substring_ascii(first + 1, second),
            signature: token.substring_ascii(second + 1, len),
            signing_input: token.substring_ascii(0, second),
        },
    )
}

} // verus!
