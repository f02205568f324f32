use vstd::prelude::*;
use vstd::utf8::*;
use crate::job::{Language, language_code, language_of_code};

verus! {

broadcast use {encode_utf8_valid_utf8, encode_utf8_decode_utf8};

/// Big-endian (network order) bytes of a 32-bit integer.
pub open spec fn be32(n: u32) -> Seq<u8> {
    seq![
        (n >> 24u32) as u8,
        ((n >> 16u32) & 0xffu32) as u8,
        ((n >> 8u32) & 0xffu32) as u8,
        (n & 0xffu32) as u8,
    ]
}

/// The 32-bit integer whose big-endian bytes start `s`.
pub open spec fn read32(s: Seq<u8>) -> u32 {
    ((s[0] as u32) << 24u32) | ((s[1] as u32) << 16u32) | ((s[2] as u32) << 8u32) | (s[3] as u32)
}

pub proof fn lemma_read32_be32(n: u32, rest: Seq<u8>)
    ensures
        be32(n).len() == 4,
        read32(be32(n) + rest) == n,
{
    let s = be32(n) + rest;
    assert(s[0] == (n >> 24u32) as u8);
    assert(s[1] == ((n >> 16u32) & 0xffu32) as u8);
    assert(s[2] == ((n >> 8u32) & 0xffu32) as u8);
    assert(s[3] == (n & 0xffu32) as u8);
    assert(((((n >> 24u32) as u8) as u32) << 24u32) | (((((n >> 16u32) & 0xffu32) as u8) as u32)
        << 16u32) | (((((n >> 8u32) & 0xffu32) as u8) as u32) << 8u32) | (((n & 0xffu32) as u8)
        as u32) == n) by (bit_vector);
}

/// Appends the big-endian bytes of `n`.
pub fn push_be32(out: &mut Vec<u8>, n: u32)
    ensures
        final(out)@ == old(out)@ + be32(n),
{
    out.push((n >> 24u32) as u8);
    out.push(((n >> 16u32) & 0xffu32) as u8);
    out.push(((n >> 8u32) & 0xffu32) as u8);
    out.push((n & 0xffu32) as u8);
    assert(out@ =~= old(out)@ + be32(n));
}

/// Reads the big-endian integer that starts at `pos`.
pub fn read_be32_at(s: &[u8], pos: usize) -> (r: u32)
    requires
        pos + 4 <= s@.len(),
    ensures
        r == read32(s@.skip(pos as int)),
{
    ((s[pos] as u32) << 24u32) | ((s[pos + 1] as u32) << 16u32) | ((s[pos + 2] as u32) << 8u32) | (
    s[pos + 3] as u32)
}

/// Appends all of `src` to `out`.
pub fn append_bytes(out: &mut Vec<u8>, src: &[u8])
    ensures
        final(out)@ == old(out)@ + src@,
{
    let mut i: usize = 0;
    while i < src.len()
        invariant
            i <= src@.len(),
            out@ == old(out)@ + src@.subrange(0, i as int),
        decreases src@.len() - i,
    {
        out.push(src[i]);
        i = i + 1;
        assert(out@ =~= old(out)@ + src@.subrange(0, i as int));
    }
    assert(src@.subrange(0, i as int) =~= src@);
}

/// Copies `s[from..to]` into a new vector.
pub fn copy_range(s: &[u8], from: usize, to: usize) -> (r: Vec<u8>)
    requires
        from <= to <= s@.len(),
    ensures
        r@ == s@.subrange(from as int, to as int),
{
    let mut r: Vec<u8> = Vec::new();
    let mut i: usize = from;
    while i < to
        invariant
            from <= i <= to <= s@.len(),
            r@ == s@.subrange(from as int, i as int),
        decreases to - i,
    {
        r.push(s[i]);
        i = i + 1;
        assert(r@ =~= s@.subrange(from as int, i as int));
    }
    r
}

/// Relies on std::str::from_utf8: it accepts exactly the well-formed UTF-8
/// byte sequences, and the text it returns is what those bytes encode.
#[verifier::external_body]
fn utf8_text(b: &[u8]) -> (r: Option<String>)
    ensures
        r is Some <==> valid_utf8(b@),
        r matches Some(s) ==> s@ == decode_utf8(b@),
{
    match std::str::from_utf8(b) {
        Ok(s) => Some(s.to_string()),
        Err(_) => None,
    }
}

/// What can go wrong when a frame or a message is decoded.
#[derive(Clone, Copy, Debug, PartialEq, Eq, Structural)]
pub enum ProtocolError {
    /// Fewer bytes than the frame declares have arrived: not fatal, retry
    /// once more data is there.
    Incomplete,
    /// The length prefix is out of range, or a compressed body is corrupt.
    MalformedFrame,
    /// The tag names no message type, or a reserved one.
    UnknownMessageType,
    /// Field decoding ran past the payload or met an invalid value.
    MalformedPayload,
}

/// The shape of one field of a message payload.
#[derive(Clone, Copy, Debug, PartialEq, Eq, Structural)]
pub enum FieldKind {
    Num,
    Lang,
    Text,
    Blob,
}

/// One field value of a message payload.
#[derive(Debug)]
pub enum Field {
    Num(u32),
    Lang(Language),
    Text(String),
    Blob(Vec<u8>),
}

/// Mathematical model of a field value.
pub enum FieldV {
    Num(u32),
    Lang(Language),
    Text(Seq<char>),
    Blob(Seq<u8>),
}

impl View for Field {
    type V = FieldV;

    open spec fn view(&self) -> FieldV {
        match self {
            Field::Num(n) => FieldV::Num(*n),
            Field::Lang(l) => FieldV::Lang(*l),
            Field::Text(s) => FieldV::Text(s@),
            Field::Blob(b) => FieldV::Blob(b@),
        }
    }
}

pub open spec fn fields_view(v: Seq<Field>) -> Seq<FieldV> {
    v.map_values(|f: Field| f@)
}

pub open spec fn kind_of(f: FieldV) -> FieldKind {
    match f {
        FieldV::Num(_) => FieldKind::Num,
        FieldV::Lang(_) => FieldKind::Lang,
        FieldV::Text(_) => FieldKind::Text,
        FieldV::Blob(_) => FieldKind::Blob,
    }
}

/// The fields have, one for one, the shapes of the layout.
pub open spec fn conforms(ks: Seq<FieldKind>, fs: Seq<FieldV>) -> bool {
    ks.len() == fs.len() && forall|i: int| 0 <= i < ks.len() ==> kind_of(#[trigger] fs[i]) == ks[i]
}

/// A field can be written: its length prefix holds its byte length.
pub open spec fn field_fits(f: FieldV) -> bool {
    match f {
        FieldV::Text(cs) => encode_utf8(cs).len() <= u32::MAX,
        FieldV::Blob(b) => b.len() <= u32::MAX,
        _ => true,
    }
}

pub open spec fn fields_fit(fs: Seq<FieldV>) -> bool {
    forall|i: int| 0 <= i < fs.len() ==> field_fits(#[trigger] fs[i])
}

/// Wire bytes of one field: integers as four big-endian bytes, strings and
/// blobs as a four-byte length followed by the UTF-8 or raw bytes.
pub open spec fn encode_field(f: FieldV) -> Seq<u8> {
    match f {
        FieldV::Num(n) => be32(n),
        FieldV::Lang(l) => be32(language_code(l)),
        FieldV::Text(cs) => be32(encode_utf8(cs).len() as u32) + encode_utf8(cs),
        FieldV::Blob(b) => be32(b.len() as u32) + b,
    }
}

/// Wire bytes of a sequence of fields, in order.
pub open spec fn encode_fields(fs: Seq<FieldV>) -> Seq<u8>
    decreases fs.len(),
{
    if fs.len() == 0 {
        Seq::empty()
    } else {
        encode_field(fs[0]) + encode_fields(fs.drop_first())
    }
}

/// Reads one field of the given shape from the start of `s`: the value and
/// the number of bytes it took, or None where the bytes run out or are invalid.
pub open spec fn parse_field(k: FieldKind, s: Seq<u8>) -> Option<(FieldV, int)> {
    if s.len() < 4 {
        None
    } else {
        let n = read32(s);
        match k {
            FieldKind::Num => Some((FieldV::Num(n), 4)),
            FieldKind::Lang => match language_of_code(n) {
                Some(l) => Some((FieldV::Lang(l), 4)),
                None => None,
            },
            FieldKind::Text => if s.len() < 4 + n || !valid_utf8(s.subrange(4, 4 + n)) {
                None
            } else {
                Some((FieldV::Text(decode_utf8(s.subrange(4, 4 + n))), 4 + n))
            },
            FieldKind::Blob => if s.len() < 4 + n {
                None
            } else {
                Some((FieldV::Blob(s.subrange(4, 4 + n)), 4 + n))
            },
        }
    }
}

/// Reads fields of the shapes of `ks`, in order, from the start of `s`.
/// Bytes after the last field are not read.
pub open spec fn parse_fields(ks: Seq<FieldKind>, s: Seq<u8>) -> Option<Seq<FieldV>>
    decreases ks.len(),
{
    if ks.len() == 0 {
        Some(Seq::empty())
    } else {
        match parse_field(ks[0], s) {
            None => None,
            Some((f, n)) => match parse_fields(ks.drop_first(), s.skip(n)) {
                None => None,
                Some(rest) => Some(seq![f] + rest),
            },
        }
    }
}

pub proof fn lemma_parse_encode_field(f: FieldV, rest: Seq<u8>)
    requires
        field_fits(f),
    ensures
        parse_field(kind_of(f), encode_field(f) + rest) == Some((f, encode_field(f).len() as int)),
{
    let s = encode_field(f) + rest;
    match f {
        FieldV::Num(n) => {
            lemma_read32_be32(n, rest);
        },
        FieldV::Lang(l) => {
            lemma_read32_be32(language_code(l), rest);
        },
        FieldV::Text(cs) => {
            let e = encode_utf8(cs);
            assert(s =~= be32(e.len() as u32) + (e + rest));
            lemma_read32_be32(e.len() as u32, e + rest);
            assert(s.subrange(4, 4 + e.len() as int) =~= e);
        },
        FieldV::Blob(b) => {
            assert(s =~= be32(b.len() as u32) + (b + rest));
            lemma_read32_be32(b.len() as u32, b + rest);
            assert(s.subrange(4, 4 + b.len() as int) =~= b);
        },
    }
}

/// Fields written in order are read back, whatever bytes follow them.
pub proof fn lemma_parse_encode_fields(ks: Seq<FieldKind>, fs: Seq<FieldV>, rest: Seq<u8>)
    requires
        conforms(ks, fs),
        fields_fit(fs),
    ensures
        parse_fields(ks, encode_fields(fs) + rest) == Some(fs),
    decreases fs.len(),
{
    if fs.len() == 0 {
        assert(fs =~= Seq::<FieldV>::empty());
    } else {
        let f = fs[0];
        let tail = fs.drop_first();
        let s = encode_fields(fs) + rest;
        let after = encode_fields(tail) + rest;
        assert(s =~= encode_field(f) + after);
        lemma_parse_encode_field(f, after);
        assert(s.skip(encode_field(f).len() as int) =~= after);
        assert(conforms(ks.drop_first(), tail)) by {
            assert forall|i: int| 0 <= i < tail.len() implies kind_of(#[trigger] tail[i])
                == ks.drop_first()[i] by {
                assert(tail[i] == fs[i + 1]);
            }
        }
        assert(fields_fit(tail)) by {
            assert forall|i: int| 0 <= i < tail.len() implies field_fits(#[trigger] tail[i]) by {
                assert(tail[i] == fs[i + 1]);
            }
        }
        lemma_parse_encode_fields(ks.drop_first(), tail, rest);
        assert(seq![f] + tail =~= fs);
    }
}

impl Field {
    pub fn fits(&self) -> (r: bool)
        ensures
            r == field_fits(self@),
    {
        match self {
            Field::Text(s) => s.as_str().as_bytes().len() <= 0xffff_ffffusize,
            Field::Blob(b) => b.len() <= 0xffff_ffffusize,
            _ => true,
        }
    }

    /// Appends the wire bytes of this field.
    pub fn encode_into(&self, out: &mut Vec<u8>)
        requires
            field_fits(self@),
        ensures
            final(out)@ == old(out)@ + encode_field(self@),
    {
        match self {
            Field::Num(n) => push_be32(out, *n),
            Field::Lang(l) => push_be32(out, l.code()),
            Field::Text(s) => {
                let b = s.as_str().as_bytes();
                push_be32(out, b.len() as u32);
                append_bytes(out, b);
                assert(out@ =~= old(out)@ + encode_field(self@));
            },
            Field::Blob(b) => {
                push_be32(out, b.len() as u32);
                append_bytes(out, b.as_slice());
                assert(out@ =~= old(out)@ + encode_field(self@));
            },
        }
    }
}

/// Reads one field of shape `k` at `pos`; the field and the position after it.
pub fn parse_field_at(k: FieldKind, s: &[u8], pos: usize) -> (r: Option<(Field, usize)>)
    requires
        pos <= s@.len(),
    ensures
        match parse_field(k, s@.skip(pos as int)) {
            None => r is None,
            Some((f, n)) => r matches Some((g, p)) && g@ == f && p == pos + n,
        },
{
    let ghost t = s@.skip(pos as int);
    if s.len() - pos < 4 {
        return None;
    }
    let n = read_be32_at(s, pos);
    match k {
        FieldKind::Num => Some((Field::Num(n), pos + 4)),
        FieldKind::Lang => match Language::from_code(n) {
            Some(l) => Some((Field::Lang(l), pos + 4)),
            None => None,
        },
        FieldKind::Text => {
            if s.len() - pos - 4 < n as usize {
                return None;
            }
            let end = pos + 4 + n as usize;
            let b = copy_range(s, pos + 4, end);
            assert(b@ =~= t.subrange(4, 4 + n));
            match utf8_text(b.as_slice()) {
                Some(text) => Some((Field::Text(text), end)),
                None => None,
            }
        },
        FieldKind::Blob => {
            if s.len() - pos - 4 < n as usize {
                return None;
            }
            let end = pos + 4 + n as usize;
            let b = copy_range(s, pos + 4, end);
            assert(b@ =~= t.subrange(4, 4 + n));
            Some((Field::Blob(b), end))
        },
    }
}

/// Reads fields of the shapes `ks[i..]`, in order, from `s[pos..]`.
pub fn parse_fields_at(ks: &[FieldKind], i: usize, s: &[u8], pos: usize) -> (r: Option<Vec<Field>>)
    requires
        i <= ks@.len(),
        pos <= s@.len(),
    ensures
        match parse_fields(ks@.skip(i as int), s@.skip(pos as int)) {
            None => r is None,
            Some(fs) => r matches Some(v) && fields_view(v@) == fs,
        },
    decreases ks@.len() - i,
{
    let ghost kt = ks@.skip(i as int);
    if i == ks.len() {
        let v: Vec<Field> = Vec::new();
        assert(fields_view(v@) =~= Seq::<FieldV>::empty());
        return Some(v);
    }
    assert(kt[0] == ks@[i as int]);
    assert(kt.drop_first() =~= ks@.skip(i + 1));
    match parse_field_at(ks[i], s, pos) {
        None => None,
        Some((f, p)) => {
            assert(s@.skip(pos as int).skip(p - pos) =~= s@.skip(p as int));
            match parse_fields_at(ks, i + 1, s, p) {
                None => None,
                Some(mut rest) => {
                    let ghost old_rest = rest@;
                    rest.insert(0, f);
                    assert(fields_view(rest@) =~= seq![rest@[0]@] + fields_view(old_rest));
                    Some(rest)
                },
            }
        },
    }
}

} // verus!
