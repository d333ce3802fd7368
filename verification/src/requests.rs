//! The batch request builder: coordinates are rendered to their text form,
//! grouped into bounded chunks, and each chunk is framed as the JSON array
//! of strings that the definitions endpoint expects in a POST body.

use vstd::prelude::*;

use crate::coordinate::{coord_text, Coordinate};
use vstd::arithmetic::div_mod::{lemma_basic_div, lemma_div_plus_one};
use vstd::string::StringSliceAdditionalSpecFns;

verus! {

/// The service never accepts more coordinates than this in one request.
pub const MAX_COORDINATES_PER_REQUEST: usize = 1000;

// ---------------------------------------------------------------------------
// JSON framing of an array of strings
// ---------------------------------------------------------------------------

/// How one byte of a string is written inside a JSON string literal:
/// quote and backslash are escaped, control bytes become `\u00XX`, and
/// everything else (ASCII and UTF-8 continuation bytes alike) passes through.
pub open spec fn esc_byte(b: u8) -> Seq<u8> {
    if b == 34 {
        seq![92u8, 34u8]
    } else if b == 92 {
        seq![92u8, 92u8]
    } else if b < 32 {
        seq![92u8, 117u8, 48u8, 48u8, hex_digit((b / 16) as nat), hex_digit((b % 16) as nat)]
    } else {
        seq![b]
    }
}

pub open spec fn hex_digit(d: nat) -> u8 {
    if d < 10 {
        (48 + d) as u8
    } else {
        (87 + d) as u8
    }
}

pub open spec fn escape_json_bytes(bs: Seq<u8>) -> Seq<u8>
    decreases bs.len(),
{
    if bs.len() == 0 {
        Seq::empty()
    } else {
        escape_json_bytes(bs.drop_last()) + esc_byte(bs.last())
    }
}

/// A JSON string literal holding `s`, as UTF-8 bytes.
pub open spec fn json_string_bytes(s: Seq<char>) -> Seq<u8> {
    seq![34u8] + escape_json_bytes(vstd::utf8::encode_utf8(s)) + seq![34u8]
}

pub open spec fn json_array_inner(texts: Seq<Seq<char>>) -> Seq<u8>
    decreases texts.len(),
{
    if texts.len() == 0 {
        Seq::empty()
    } else if texts.len() == 1 {
        json_string_bytes(texts[0])
    } else {
        json_array_inner(texts.drop_last()) + seq![44u8] + json_string_bytes(texts.last())
    }
}

/// A JSON array of string literals, as UTF-8 bytes.
pub open spec fn json_array_bytes(texts: Seq<Seq<char>>) -> Seq<u8> {
    seq![91u8] + json_array_inner(texts) + seq![93u8]
}

fn hex_digit_exec(d: u8) -> (r: u8)
    requires
        d < 16,
    ensures
        r == hex_digit(d as nat),
{
    if d < 10 {
        48 + d
    } else {
        87 + d
    }
}

/// Append the escaped bytes of `s` to `out`.
fn push_escaped(out: &mut Vec<u8>, s: &str)
    ensures
        final(out)@ == old(out)@ + escape_json_bytes(s.spec_bytes()),
{
    let bytes = s.as_bytes();
    let ghost base = out@;
    let mut i: usize = 0;
    proof {
        assert(bytes@.take(0) =~= Seq::<u8>::empty());
    }
    while i < bytes.len()
        invariant
            i <= bytes@.len(),
            bytes@ == s.spec_bytes(),
            out@ == base + escape_json_bytes(bytes@.take(i as int)),
        decreases bytes.len() - i,
    {
        let b = bytes[i];
        proof {
            assert(bytes@.take(i + 1).drop_last() =~= bytes@.take(i as int));
            assert(bytes@.take(i + 1).last() == bytes@[i as int]);
        }
        let ghost before = out@;
        if b == 34 {
            out.push(92);
            out.push(34);
        } else if b == 92 {
            out.push(92);
            out.push(92);
        } else if b < 32 {
            out.push(92);
            out.push(117);
            out.push(48);
            out.push(48);
            out.push(hex_digit_exec(b / 16));
            out.push(hex_digit_exec(b % 16));
        } else {
            out.push(b);
        }
        proof {
            assert(out@ =~= before + esc_byte(bytes@[i as int]));
            assert(out@ =~= base + escape_json_bytes(bytes@.take(i + 1)));
        }
        i = i + 1;
    }
    proof {
        assert(bytes@.take(bytes@.len() as int) =~= bytes@);
    }
}

/// Encode a vector of texts as a JSON array of string literals.
pub fn encode_string_array(texts: &Vec<String>) -> (r: Vec<u8>)
    ensures
        r@ == json_array_bytes(texts.deep_view()),
{
    let ghost tv = texts.deep_view();
    let mut out: Vec<u8> = Vec::new();
    out.push(91);
    let mut i: usize = 0;
    proof {
        assert(tv.take(0) =~= Seq::<Seq<char>>::empty());
        assert(out@ =~= seq![91u8] + json_array_inner(tv.take(0)));
    }
    while i < texts.len()
        invariant
            i <= texts.len(),
            tv == texts.deep_view(),
            tv.len() == texts@.len(),
            forall|k: int| 0 <= k < tv.len() ==> #[trigger] tv[k] == texts@[k]@,
            out@ == seq![91u8] + json_array_inner(tv.take(i as int)),
        decreases texts.len() - i,
    {
        if i > 0 {
            out.push(44);
        }
        out.push(34);
        push_escaped(&mut out, texts[i].as_str());
        out.push(34);
        proof {
            assert(tv.take(i + 1).drop_last() =~= tv.take(i as int));
            assert(tv.take(i + 1).last() == tv[i as int]);
            assert(texts@[i as int]@ == tv[i as int]);
            if i == 0 {
                assert(out@ =~= seq![91u8] + json_string_bytes(tv[0]));
                assert(json_array_inner(tv.take(1)) == json_string_bytes(tv.take(1)[0]));
                assert(tv.take(1)[0] == tv[0]);
            } else {
                assert(out@ =~= seq![91u8] + (json_array_inner(tv.take(i as int)) + seq![44u8]
                    + json_string_bytes(tv[i as int])));
            }
            assert(out@ =~= seq![91u8] + json_array_inner(tv.take(i + 1)));
        }
        i = i + 1;
    }
    out.push(93);
    proof {
        assert(tv.take(tv.len() as int) =~= tv);
        assert(out@ =~= json_array_bytes(tv));
    }
    out
}

// ---------------------------------------------------------------------------
// Chunking
// ---------------------------------------------------------------------------

/// Groups of at most `c` texts, in order; the last group may be smaller.
pub open spec fn chunks_of(texts: Seq<Seq<char>>, c: int) -> Seq<Seq<Seq<char>>>
    recommends
        c >= 1,
    decreases texts.len(),
    when c >= 1
{
    if texts.len() == 0 {
        Seq::empty()
    } else if texts.len() <= c {
        seq![texts]
    } else {
        seq![texts.take(c)] + chunks_of(texts.skip(c), c)
    }
}

/// The chunking law: the builder emits `ceil(N / c)` groups, every group but
/// the last holds exactly `c` texts, no group is empty or oversized, and the
/// concatenation of all groups is the input sequence.
pub proof fn lemma_chunks_of_properties(texts: Seq<Seq<char>>, c: int)
    requires
        c >= 1,
    ensures
        chunks_of(texts, c).len() == (texts.len() + c - 1) / c,
        forall|i: int|
            0 <= i < chunks_of(texts, c).len() - 1 ==> #[trigger] chunks_of(texts, c)[i].len()
                == c,
        forall|i: int|
            0 <= i < chunks_of(texts, c).len() ==> 1 <= #[trigger] chunks_of(texts, c)[i].len()
                <= c,
        chunks_of(texts, c).flatten() == texts,
    decreases texts.len(),
{
    let n = texts.len() as int;
    let parts = chunks_of(texts, c);
    if n == 0 {
        lemma_basic_div(c - 1, c);
        assert(parts.flatten() =~= texts);
    } else if n <= c {
        assert(parts.len() == 1);
        lemma_basic_div(n - 1, c);
        lemma_div_plus_one(n - 1, c);
        assert((n + c - 1) / c == 1);
        assert(parts.flatten() =~= texts.add(Seq::<Seq<Seq<char>>>::empty().flatten())) by {
            assert(parts.drop_first() =~= Seq::<Seq<Seq<char>>>::empty());
            assert(parts.first() == texts);
        }
        assert(parts.flatten() =~= texts);
    } else {
        lemma_chunks_of_properties(texts.skip(c), c);
        let rest = chunks_of(texts.skip(c), c);
        assert(parts.len() == 1 + rest.len());
        lemma_div_plus_one(n - 1, c);
        assert((n - 1) / c == (n - 1 - c) / c + 1) by {
            lemma_div_plus_one(n - 1 - c, c);
        }
        assert(parts.len() == (n + c - 1) / c);
        assert forall|i: int| 0 <= i < parts.len() - 1 implies #[trigger] parts[i].len() == c by {
            if i > 0 {
                assert(parts[i] == rest[i - 1]);
            }
        }
        assert forall|i: int| 0 <= i < parts.len() implies 1 <= #[trigger] parts[i].len() <= c by {
            if i > 0 {
                assert(parts[i] == rest[i - 1]);
            }
        }
        assert(parts.first() == texts.take(c));
        assert(parts.drop_first() =~= rest);
        assert(parts.flatten() == texts.take(c).add(rest.flatten()));
        assert(texts.take(c) + texts.skip(c) =~= texts);
    }
}

/// Render each coordinate to its canonical text.
pub open spec fn coord_texts_of(coords: Seq<Coordinate>) -> Seq<Seq<char>> {
    Seq::new(coords.len(), |i: int| coord_text(coords[i]@))
}

/// The texts of the coordinates, in order.
pub fn coordinate_texts(coords: &Vec<Coordinate>) -> (r: Vec<String>)
    ensures
        r.deep_view() == coord_texts_of(coords@),
{
    let mut out: Vec<String> = Vec::new();
    let mut i: usize = 0;
    while i < coords.len()
        invariant
            i <= coords.len(),
            out.deep_view().len() == i,
            forall|k: int| 0 <= k < i ==> #[trigger] out.deep_view()[k] == coord_text(coords@[k]@),
        decreases coords.len() - i,
    {
        let ghost old_out = out.deep_view();
        let t = coords[i].to_text();
        out.push(t);
        proof {
            assert(out.deep_view() =~= old_out.push(coord_text(coords@[i as int]@)));
        }
        i = i + 1;
    }
    proof {
        assert(out.deep_view() =~= coord_texts_of(coords@));
    }
    out
}

/// Group the texts into chunks of at most `c` entries.
fn chunk_texts(c: usize, texts: &Vec<String>) -> (r: Vec<Vec<String>>)
    requires
        c >= 1,
    ensures
        r.deep_view() == chunks_of(texts.deep_view(), c as int),
{
    let ghost tv = texts.deep_view();
    let total = texts.len();
    let mut out: Vec<Vec<String>> = Vec::new();
    let mut p: usize = 0;
    proof {
        assert(tv.skip(0) =~= tv);
        assert(out.deep_view() =~= Seq::<Seq<Seq<char>>>::empty());
        assert(chunks_of(tv, c as int) =~= out.deep_view() + chunks_of(tv.skip(0), c as int));
    }
    while p < texts.len()
        invariant
            c >= 1,
            p <= texts.len(),
            total == texts@.len(),
            tv == texts.deep_view(),
            tv.len() == texts@.len(),
            forall|k: int| 0 <= k < tv.len() ==> #[trigger] tv[k] == texts@[k]@,
            chunks_of(tv, c as int) == out.deep_view() + chunks_of(tv.skip(p as int), c as int),
        decreases texts.len() - p,
    {
        let remaining = texts.len() - p;
        let take_n = if remaining < c {
            remaining
        } else {
            c
        };
        let mut chunk: Vec<String> = Vec::new();
        let mut k: usize = 0;
        while k < take_n
            invariant
                p + take_n <= texts@.len(),
                total == texts@.len(),
                k <= take_n,
                tv == texts.deep_view(),
                tv.len() == texts@.len(),
                forall|q: int| 0 <= q < tv.len() ==> #[trigger] tv[q] == texts@[q]@,
                chunk.deep_view().len() == k,
                forall|q: int| 0 <= q < k ==> #[trigger] chunk.deep_view()[q] == tv[p + q],
            decreases take_n - k,
        {
            let ghost old_chunk = chunk.deep_view();
            let t = texts[p + k].clone();
            chunk.push(t);
            proof {
                assert(chunk.deep_view() =~= old_chunk.push(tv[p + k]));
            }
            k = k + 1;
        }
        let ghost old_out = out.deep_view();
        let ghost suffix = tv.skip(p as int);
        proof {
            if remaining <= c {
                assert(chunk.deep_view() =~= suffix);
                assert(chunks_of(suffix, c as int) == seq![suffix]);
            } else {
                assert(chunk.deep_view() =~= suffix.take(c as int));
                assert(chunks_of(suffix, c as int) == seq![suffix.take(c as int)] + chunks_of(
                    suffix.skip(c as int),
                    c as int,
                ));
                assert(suffix.skip(c as int) =~= tv.skip(p + c));
            }
        }
        out.push(chunk);
        proof {
            assert(out.deep_view() =~= old_out.push(chunk.deep_view()));
            if remaining <= c {
                assert(tv.skip(tv.len() as int) =~= Seq::<Seq<char>>::empty());
                assert(out.deep_view() + chunks_of(tv.skip(tv.len() as int), c as int)
                    =~= old_out + chunks_of(suffix, c as int));
            } else {
                assert(out.deep_view() + chunks_of(tv.skip(p + c), c as int) =~= old_out + (seq![
                    suffix.take(c as int),
                ] + chunks_of(tv.skip(p + c), c as int)));
            }
        }
        p = p + take_n;
    }
    proof {
        assert(tv.skip(tv.len() as int) =~= Seq::<Seq<char>>::empty());
        assert(out.deep_view() + Seq::<Seq<Seq<char>>>::empty() =~= out.deep_view());
    }
    out
}

// ---------------------------------------------------------------------------
// Request descriptions
// ---------------------------------------------------------------------------

/// One ready-to-send definitions lookup: a `POST` of `body` to `uri`, with
/// JSON content and accept headers.
#[derive(Clone, PartialEq, Debug)]
pub struct DefinitionsRequest {
    /// Target: `{root}/definitions`.
    pub uri: String,
    /// A JSON array of coordinate text strings, at most
    /// `MAX_COORDINATES_PER_REQUEST` of them.
    pub body: Vec<u8>,
}

/// The HTTP method every definitions request uses.
pub fn request_method() -> (r: &'static str)
    ensures
        r@ == "POST"@,
{
    "POST"
}

/// The `Content-Type` and `Accept` header value of every request.
pub fn request_content_type() -> (r: &'static str)
    ensures
        r@ == "application/json"@,
{
    "application/json"
}

pub open spec fn definitions_uri(root: Seq<char>) -> Seq<char> {
    root + "/definitions"@
}

/// The effective chunk size: the requested one, capped by the service limit.
pub open spec fn effective_chunk(chunk_size: usize) -> int {
    if chunk_size < 1000 {
        chunk_size as int
    } else {
        1000
    }
}

/// Build the chunked definition-lookup requests against `root`.
///
/// The coordinates are rendered to text, grouped into chunks of at most
/// `min(chunk_size, MAX_COORDINATES_PER_REQUEST)` entries, and each chunk
/// becomes one request whose body is the JSON array of its texts.
pub fn get_with_root(root: &str, chunk_size: usize, coordinates: &Vec<Coordinate>) -> (r: Vec<
    DefinitionsRequest,
>)
    requires
        chunk_size >= 1,
    ensures
        r@.len() == chunks_of(coord_texts_of(coordinates@), effective_chunk(chunk_size)).len(),
        forall|i: int|
            0 <= i < r@.len() ==> (#[trigger] r@[i].uri)@ == definitions_uri(root@),
        forall|i: int|
            0 <= i < r@.len() ==> (#[trigger] r@[i].body)@ == json_array_bytes(
                chunks_of(coord_texts_of(coordinates@), effective_chunk(chunk_size))[i],
            ),
{
    let c: usize = if chunk_size < MAX_COORDINATES_PER_REQUEST {
        chunk_size
    } else {
        MAX_COORDINATES_PER_REQUEST
    };
    let texts = coordinate_texts(coordinates);
    let chunks = chunk_texts(c, &texts);
    let ghost cv = chunks.deep_view();
    let mut out: Vec<DefinitionsRequest> = Vec::new();
    let mut i: usize = 0;
    while i < chunks.len()
        invariant
            i <= chunks.len(),
            cv == chunks.deep_view(),
            cv.len() == chunks@.len(),
            forall|k: int| 0 <= k < cv.len() ==> #[trigger] cv[k] == chunks@[k].deep_view(),
            out@.len() == i,
            forall|k: int| 0 <= k < i ==> (#[trigger] out@[k].uri)@ == definitions_uri(root@),
            forall|k: int|
                0 <= k < i ==> (#[trigger] out@[k].body)@ == json_array_bytes(cv[k]),
        decreases chunks.len() - i,
    {
        let mut uri = root.to_owned();
        uri.append("/definitions");
        let body = encode_string_array(&chunks[i]);
        out.push(DefinitionsRequest { uri, body });
        i = i + 1;
    }
    out
}

/// Build the chunked requests against the default service root.
pub fn get(chunk_size: usize, coordinates: &Vec<Coordinate>) -> (r: Vec<DefinitionsRequest>)
    requires
        chunk_size >= 1,
    ensures
        r@.len() == chunks_of(coord_texts_of(coordinates@), effective_chunk(chunk_size)).len(),
        forall|i: int|
            0 <= i < r@.len() ==> (#[trigger] r@[i].uri)@ == definitions_uri(crate::ROOT_URI@),
        forall|i: int|
            0 <= i < r@.len() ==> (#[trigger] r@[i].body)@ == json_array_bytes(
                chunks_of(coord_texts_of(coordinates@), effective_chunk(chunk_size))[i],
            ),
{
    get_with_root(crate::ROOT_URI, chunk_size, coordinates)
}

} // verus!
