//! Environment variables and the tables that carry them.

use vstd::prelude::*;
use vstd::string::StringSliceAdditionalSpecFns;

use bytes::{Bytes, BytesMut};
use vstd::slice::{slice_subrange, slice_to_vec};

use crate::bindings::{
    buffer_content, buffer_freeze, buffer_put_slice, buffer_put_u8, buffer_put_zeros,
    buffer_with_capacity, bytes_content, room,
};
use crate::packet_header::Endianness;
use crate::wire::{lemma_u16_round_trip, put_u16, read_u16, u16_bytes, u16_from, zeros};

verus! {

/// Largest byte length of a name or a value: its length plus the terminator
/// must fit in 16 bits.
pub const MAX_TEXT_LEN: usize = 65534;

/// A name and a value, as bytes.
pub struct EnvVariableView {
    pub name: Seq<u8>,
    pub value: Seq<u8>,
}

/// Whether both texts fit the 16-bit length fields.
pub open spec fn valid_var(v: EnvVariableView) -> bool {
    v.name.len() <= MAX_TEXT_LEN && v.value.len() <= MAX_TEXT_LEN
}

/// A variable on the wire: the name length and the value length, each
/// counting its terminator, then the name, a zero byte, the value, a zero
/// byte.
pub open spec fn encode_var(v: EnvVariableView, e: Endianness) -> Seq<u8> {
    u16_bytes((v.name.len() + 1) as u16, e) + u16_bytes((v.value.len() + 1) as u16, e) + v.name
        + seq![0u8] + v.value + seq![0u8]
}

/// Encoded size of a variable.
pub open spec fn var_len(v: EnvVariableView) -> nat {
    v.name.len() + v.value.len() + 6
}

/// The variables' encodings, one after the other.
pub open spec fn encode_vars(vs: Seq<EnvVariableView>, e: Endianness) -> Seq<u8>
    decreases vs.len(),
{
    if vs.len() == 0 {
        Seq::empty()
    } else {
        encode_vars(vs.drop_last(), e) + encode_var(vs.last(), e)
    }
}

/// Sum of the variables' encoded sizes.
pub open spec fn vars_len(vs: Seq<EnvVariableView>) -> nat
    decreases vs.len(),
{
    if vs.len() == 0 {
        0
    } else {
        vars_len(vs.drop_last()) + var_len(vs.last())
    }
}

/// A table on the wire: its variables, then four zero bytes.
pub open spec fn encode_table(vs: Seq<EnvVariableView>, e: Endianness) -> Seq<u8> {
    encode_vars(vs, e) + zeros(4)
}

/// Encoded size of a table.
pub open spec fn table_len(vs: Seq<EnvVariableView>) -> nat {
    vars_len(vs) + 4
}

/// A variable read back from the start of `b`, with the number of bytes it
/// took; `None` where the lengths do not fit in `b`, a length is zero, or a
/// terminator is missing.
pub open spec fn decode_var(b: Seq<u8>, e: Endianness) -> Option<(EnvVariableView, nat)> {
    if b.len() < 4 {
        None
    } else {
        let n = u16_from(b.subrange(0, 2), e) as int;
        let m = u16_from(b.subrange(2, 4), e) as int;
        if n == 0 || m == 0 || b.len() < 4 + n + m || b[3 + n] != 0 || b[3 + n + m] != 0 {
            None
        } else {
            Some(
                (
                    EnvVariableView {
                        name: b.subrange(4, 3 + n),
                        value: b.subrange(4 + n, 3 + n + m),
                    },
                    (4 + n + m) as nat,
                ),
            )
        }
    }
}

pub proof fn lemma_encode_var_len(v: EnvVariableView, e: Endianness)
    ensures
        encode_var(v, e).len() == var_len(v),
{
    lemma_u16_round_trip((v.name.len() + 1) as u16, e);
    lemma_u16_round_trip((v.value.len() + 1) as u16, e);
}

pub proof fn lemma_encode_vars_len(vs: Seq<EnvVariableView>, e: Endianness)
    ensures
        encode_vars(vs, e).len() == vars_len(vs),
    decreases vs.len(),
{
    if vs.len() > 0 {
        lemma_encode_vars_len(vs.drop_last(), e);
        lemma_encode_var_len(vs.last(), e);
    }
}

/// Decoding the encoding of a name and a value gives back the name and the
/// value, and consumes exactly the encoding.
pub proof fn lemma_env_variable_round_trip(name: Seq<u8>, value: Seq<u8>, e: Endianness)
    requires
        name.len() < 65535,
        value.len() < 65535,
    ensures
        decode_var(encode_var(EnvVariableView { name, value }, e), e) == Some(
            (EnvVariableView { name, value }, var_len(EnvVariableView { name, value })),
        ),
{
    let v = EnvVariableView { name, value };
    let b = encode_var(v, e);
    let nb = u16_bytes((name.len() + 1) as u16, e);
    let vb = u16_bytes((value.len() + 1) as u16, e);
    lemma_u16_round_trip((name.len() + 1) as u16, e);
    lemma_u16_round_trip((value.len() + 1) as u16, e);
    lemma_encode_var_len(v, e);
    assert(b.subrange(0, 2) =~= nb);
    assert(b.subrange(2, 4) =~= vb);
    let n = name.len() as int + 1;
    let m = value.len() as int + 1;
    assert(b.subrange(4, 3 + n) =~= name);
    assert(b.subrange(4 + n, 3 + n + m) =~= value);
    assert(b[3 + n] == 0);
    assert(b[3 + n + m] == 0);
}

/// One name and one value, borrowed from the request they describe.
#[derive(Clone, Copy, Debug)]
pub struct EnvVariable<'a> {
    name: &'a str,
    value: &'a str,
}

impl<'a> View for EnvVariable<'a> {
    type V = EnvVariableView;

    closed spec fn view(&self) -> EnvVariableView {
        EnvVariableView { name: self.name.spec_bytes(), value: self.value.spec_bytes() }
    }
}

impl<'a> EnvVariable<'a> {
    #[verifier::type_invariant]
    closed spec fn fits(self) -> bool {
        valid_var(self@)
    }

    pub fn new(name: &'a str, value: &'a str) -> (r: Self)
        requires
            name.spec_bytes().len() <= MAX_TEXT_LEN,
            value.spec_bytes().len() <= MAX_TEXT_LEN,
        ensures
            r@ == (EnvVariableView { name: name.spec_bytes(), value: value.spec_bytes() }),
    {
        EnvVariable { name, value }
    }

    /// Encoded size: two length fields, then name and value, each with its
    /// terminator.
    pub fn len(&self) -> (r: usize)
        ensures
            r == var_len(self@),
            valid_var(self@),
    {
        proof {
            use_type_invariant(self);
        }
        self.name.len() + self.value.len() + 6
    }

    /// Appends the variable's encoding.
    pub fn encode_into(&self, buf: &mut BytesMut, endianness: Endianness)
        requires
            room(*old(buf), var_len(self@)),
        ensures
            buffer_content(*final(buf)) == buffer_content(*old(buf)) + encode_var(self@, endianness),
    {
        proof {
            use_type_invariant(self);
            lemma_u16_round_trip((self@.name.len() + 1) as u16, endianness);
            lemma_u16_round_trip((self@.value.len() + 1) as u16, endianness);
        }
        let ghost start = buffer_content(*buf);
        put_u16(buf, (self.name.len() + 1) as u16, endianness);
        put_u16(buf, (self.value.len() + 1) as u16, endianness);
        buffer_put_slice(buf, self.name.as_bytes());
        buffer_put_u8(buf, 0u8);
        buffer_put_slice(buf, self.value.as_bytes());
        buffer_put_u8(buf, 0u8);
        assert(buffer_content(*buf) =~= start + encode_var(self@, endianness));
    }

    /// The variable's encoding.
    pub fn encode(&self, endianness: Endianness) -> (r: Bytes)
        ensures
            bytes_content(r) == encode_var(self@, endianness),
    {
        let mut buf = buffer_with_capacity(self.len());
        self.encode_into(&mut buf, endianness);
        assert(buffer_content(buf) =~= encode_var(self@, endianness));
        buffer_freeze(buf)
    }

    pub fn into_bytes(self, endianness: Endianness) -> (r: Bytes)
        ensures
            bytes_content(r) == encode_var(self@, endianness),
    {
        self.encode(endianness)
    }

    /// Reads a variable from the start of `bytes`: its name, its value, and
    /// the number of bytes it took.
    pub fn decode(bytes: &[u8], endianness: Endianness) -> (r: Option<(Vec<u8>, Vec<u8>, usize)>)
        ensures
            match r {
                Some((name, value, used)) => decode_var(bytes@, endianness) == Some(
                    (EnvVariableView { name: name@, value: value@ }, used as nat),
                ),
                None => decode_var(bytes@, endianness) is None,
            },
    {
        if bytes.len() < 4 {
            return None;
        }
        let n = read_u16(bytes, 0, endianness) as usize;
        let m = read_u16(bytes, 2, endianness) as usize;
        if n == 0 || m == 0 || bytes.len() - 4 < n + m {
            return None;
        }
        if bytes[3 + n] != 0 || bytes[3 + n + m] != 0 {
            return None;
        }
        let name = slice_to_vec(slice_subrange(bytes, 4, 3 + n));
        let value = slice_to_vec(slice_subrange(bytes, 4 + n, 3 + n + m));
        Some((name, value, 4 + n + m))
    }
}

/// An ordered table of variables; insertion order is kept, so that offsets
/// computed over it are stable.
#[derive(Clone, Debug)]
pub struct EnvVariables<'a>(Vec<EnvVariable<'a>>);

impl<'a> View for EnvVariables<'a> {
    type V = Seq<EnvVariableView>;

    closed spec fn view(&self) -> Seq<EnvVariableView> {
        self.0@.map_values(|v: EnvVariable<'a>| v@)
    }
}

impl<'a> EnvVariables<'a> {
    pub fn new(capacity: usize) -> (r: Self)
        ensures
            r@ == Seq::<EnvVariableView>::empty(),
    {
        let r = EnvVariables(Vec::with_capacity(capacity));
        assert(r@ =~= Seq::<EnvVariableView>::empty());
        r
    }

    /// Appends a variable and returns its index.
    pub fn add(&mut self, name: &'a str, value: &'a str) -> (r: usize)
        requires
            name.spec_bytes().len() <= MAX_TEXT_LEN,
            value.spec_bytes().len() <= MAX_TEXT_LEN,
        ensures
            r == old(self)@.len(),
            final(self)@ == old(self)@.push(
                EnvVariableView { name: name.spec_bytes(), value: value.spec_bytes() },
            ),
    {
        let offset = self.0.len();
        self.0.push(EnvVariable::new(name, value));
        assert(self@ =~= old(self)@.push(
            EnvVariableView { name: name.spec_bytes(), value: value.spec_bytes() },
        ));
        offset
    }

    pub fn get(&self, index: usize) -> (r: Option<&EnvVariable<'a>>)
        ensures
            index < self@.len() ==> (r matches Some(v) && v@ == self@[index as int]),
            index >= self@.len() ==> r is None,
    {
        if index < self.0.len() {
            Some(&self.0[index])
        } else {
            None
        }
    }

    /// Number of variables.
    pub fn count(&self) -> (r: usize)
        ensures
            r == self@.len(),
    {
        self.0.len()
    }

    /// Sum of the members' encoded sizes; the table's encoding adds the
    /// four bytes of its end marker to it.
    pub fn len(&self) -> (r: usize)
        requires
            vars_len(self@) <= usize::MAX,
        ensures
            r == vars_len(self@),
    {
        let mut total: usize = 0;
        let mut i: usize = 0;
        while i < self.0.len()
            invariant
                i <= self@.len(),
                total == vars_len(self@.subrange(0, i as int)),
                vars_len(self@) <= usize::MAX,
            decreases self@.len() - i,
        {
            proof {
                lemma_vars_len_prefix_le(self@, i as int + 1);
                assert(self@.subrange(0, i + 1).drop_last() =~= self@.subrange(0, i as int));
            }
            total = total + self.0[i].len();
            i = i + 1;
        }
        assert(self@.subrange(0, i as int) =~= self@);
        total
    }

    /// Whether the sum of the members' encoded sizes is at most `limit`.
    pub fn fits_within(&self, limit: usize) -> (r: bool)
        ensures
            r == (vars_len(self@) <= limit),
    {
        let mut total: usize = 0;
        let mut i: usize = 0;
        while i < self.0.len()
            invariant
                i <= self@.len(),
                total == vars_len(self@.subrange(0, i as int)),
                total <= limit,
            decreases self@.len() - i,
        {
            proof {
                lemma_vars_len_prefix_le(self@, i as int + 1);
                assert(self@.subrange(0, i + 1).drop_last() =~= self@.subrange(0, i as int));
            }
            let n = self.0[i].len();
            if n > limit - total {
                return false;
            }
            total = total + n;
            i = i + 1;
        }
        assert(self@.subrange(0, i as int) =~= self@);
        true
    }

    /// Appends the table's encoding.
    pub fn encode_into(&self, buf: &mut BytesMut, endianness: Endianness)
        requires
            room(*old(buf), table_len(self@)),
        ensures
            buffer_content(*final(buf)) == buffer_content(*old(buf)) + encode_table(
                self@,
                endianness,
            ),
    {
        let ghost start = buffer_content(*buf);
        let mut i: usize = 0;
        while i < self.0.len()
            invariant
                i <= self@.len(),
                start.len() + table_len(self@) <= isize::MAX,
                buffer_content(*buf) == start + encode_vars(self@.subrange(0, i as int), endianness),
            decreases self@.len() - i,
        {
            proof {
                let s = self@.subrange(0, i + 1);
                assert(s.drop_last() =~= self@.subrange(0, i as int));
                assert(s.last() == self@[i as int]);
                lemma_vars_len_prefix_le(self@, i as int + 1);
                lemma_encode_vars_len(self@.subrange(0, i as int), endianness);
            }
            self.0[i].encode_into(buf, endianness);
            i = i + 1;
        }
        assert(self@.subrange(0, i as int) =~= self@);
        proof {
            lemma_encode_vars_len(self@, endianness);
        }
        buffer_put_zeros(buf, 4);
        assert(buffer_content(*buf) =~= start + encode_table(self@, endianness));
    }

    /// The table's encoding.
    pub fn encode(&self, endianness: Endianness) -> (r: Bytes)
        requires
            table_len(self@) <= isize::MAX,
        ensures
            bytes_content(r) == encode_table(self@, endianness),
    {
        let mut buf = buffer_with_capacity(0);
        self.encode_into(&mut buf, endianness);
        assert(buffer_content(buf) =~= encode_table(self@, endianness));
        buffer_freeze(buf)
    }

    pub fn into_bytes(self, endianness: Endianness) -> (r: Bytes)
        requires
            table_len(self@) <= isize::MAX,
        ensures
            bytes_content(r) == encode_table(self@, endianness),
    {
        self.encode(endianness)
    }
}

impl<'a> Default for EnvVariables<'a> {
    fn default() -> (r: Self)
        ensures
            r@ == Seq::<EnvVariableView>::empty(),
    {
        EnvVariables::new(0)
    }
}

/// The encoded size of a prefix of a table is at most that of the table.
proof fn lemma_vars_len_prefix_le(vs: Seq<EnvVariableView>, k: int)
    requires
        0 <= k <= vs.len(),
    ensures
        vars_len(vs.subrange(0, k)) <= vars_len(vs),
    decreases vs.len() - k,
{
    if k < vs.len() {
        lemma_vars_len_prefix_le(vs, k + 1);
        assert(vs.subrange(0, k + 1).drop_last() =~= vs.subrange(0, k));
    } else {
        assert(vs.subrange(0, k) =~= vs);
    }
}

/// A literal name of the protocol fits the length fields.
pub(crate) proof fn lemma_name_fits(s: &str)
    requires
        vstd::string::is_ascii(s),
        s@.len() <= MAX_TEXT_LEN,
    ensures
        s.spec_bytes().len() == s@.len(),
{
    broadcast use vstd::string::is_ascii_spec_bytes;

}

/// The four variables whose offsets the request header records.
pub struct RequiredView {
    pub script_filename: Option<EnvVariableView>,
    pub script_name: Option<EnvVariableView>,
    pub query_string: Option<EnvVariableView>,
    pub request_method: Option<EnvVariableView>,
}

/// The view of a variable that may be absent.
pub open spec fn opt_view(v: Option<EnvVariable>) -> Option<EnvVariableView> {
    match v {
        Some(v) => Some(v@),
        None => None,
    }
}

/// 1 for a present variable, 0 for an absent one.
pub open spec fn slot_count(v: Option<EnvVariableView>) -> nat {
    if v is Some {
        1
    } else {
        0
    }
}

/// Encoded size of a variable that may be absent.
pub open spec fn slot_len(v: Option<EnvVariableView>) -> nat {
    match v {
        Some(v) => var_len(v),
        None => 0,
    }
}

/// Encoding of a variable that may be absent.
pub open spec fn slot_bytes(v: Option<EnvVariableView>, e: Endianness) -> Seq<u8> {
    match v {
        Some(v) => encode_var(v, e),
        None => Seq::empty(),
    }
}

impl RequiredView {
    /// How many of the four are present.
    pub open spec fn count(self) -> nat {
        slot_count(self.script_filename) + slot_count(self.script_name) + slot_count(
            self.query_string,
        ) + slot_count(self.request_method)
    }

    /// Encoded size of the present ones.
    pub open spec fn len(self) -> nat {
        slot_len(self.script_filename) + slot_len(self.script_name) + slot_len(self.query_string)
            + slot_len(self.request_method)
    }

    /// The present ones encoded, in the fixed order script filename, script
    /// name, query string, request method.
    pub open spec fn bytes(self, e: Endianness) -> Seq<u8> {
        slot_bytes(self.script_filename, e) + slot_bytes(self.script_name, e) + slot_bytes(
            self.query_string,
            e,
        ) + slot_bytes(self.request_method, e)
    }
}

/// Script filename, script name, query string and request method, each
/// absent or present once.
#[derive(Clone, Copy, Debug)]
pub struct RequiredEnvVariables<'a> {
    script_filename: Option<EnvVariable<'a>>,
    script_name: Option<EnvVariable<'a>>,
    query_string: Option<EnvVariable<'a>>,
    request_method: Option<EnvVariable<'a>>,
}

impl<'a> View for RequiredEnvVariables<'a> {
    type V = RequiredView;

    closed spec fn view(&self) -> RequiredView {
        RequiredView {
            script_filename: opt_view(self.script_filename),
            script_name: opt_view(self.script_name),
            query_string: opt_view(self.query_string),
            request_method: opt_view(self.request_method),
        }
    }
}

impl<'a> RequiredEnvVariables<'a> {
    pub fn new() -> (r: Self)
        ensures
            r@ == (RequiredView {
                script_filename: None,
                script_name: None,
                query_string: None,
                request_method: None,
            }),
    {
        RequiredEnvVariables {
            script_filename: None,
            script_name: None,
            query_string: None,
            request_method: None,
        }
    }

    pub fn script_filename(&mut self, value: &'a str)
        requires
            value.spec_bytes().len() <= MAX_TEXT_LEN,
        ensures
            final(self)@ == (RequiredView {
                script_filename: Some(
                    EnvVariableView {
                        name: "SCRIPT_FILENAME".spec_bytes(),
                        value: value.spec_bytes(),
                    },
                ),
                ..old(self)@
            }),
    {
        proof {
            reveal_strlit("SCRIPT_FILENAME");
            lemma_name_fits("SCRIPT_FILENAME");
        }
        self.script_filename = Some(EnvVariable::new("SCRIPT_FILENAME", value));
    }

    pub fn get_script_filename(&self) -> (r: Option<EnvVariable<'a>>)
        ensures
            opt_view(r) == self@.script_filename,
    {
        self.script_filename
    }

    pub fn script_name(&mut self, value: &'a str)
        requires
            value.spec_bytes().len() <= MAX_TEXT_LEN,
        ensures
            final(self)@ == (RequiredView {
                script_name: Some(
                    EnvVariableView { name: "SCRIPT_NAME".spec_bytes(), value: value.spec_bytes() },
                ),
                ..old(self)@
            }),
    {
        proof {
            reveal_strlit("SCRIPT_NAME");
            lemma_name_fits("SCRIPT_NAME");
        }
        self.script_name = Some(EnvVariable::new("SCRIPT_NAME", value));
    }

    pub fn get_script_name(&self) -> (r: Option<EnvVariable<'a>>)
        ensures
            opt_view(r) == self@.script_name,
    {
        self.script_name
    }

    pub fn query_string(&mut self, value: &'a str)
        requires
            value.spec_bytes().len() <= MAX_TEXT_LEN,
        ensures
            final(self)@ == (RequiredView {
                query_string: Some(
                    EnvVariableView { name: "QUERY_STRING".spec_bytes(), value: value.spec_bytes() },
                ),
                ..old(self)@
            }),
    {
        proof {
            reveal_strlit("QUERY_STRING");
            lemma_name_fits("QUERY_STRING");
        }
        self.query_string = Some(EnvVariable::new("QUERY_STRING", value));
    }

    pub fn get_query_string(&self) -> (r: Option<EnvVariable<'a>>)
        ensures
            opt_view(r) == self@.query_string,
    {
        self.query_string
    }

    pub fn request_method(&mut self, value: &'a str)
        requires
            value.spec_bytes().len() <= MAX_TEXT_LEN,
        ensures
            final(self)@ == (RequiredView {
                request_method: Some(
                    EnvVariableView {
                        name: "REQUEST_METHOD".spec_bytes(),
                        value: value.spec_bytes(),
                    },
                ),
                ..old(self)@
            }),
    {
        proof {
            reveal_strlit("REQUEST_METHOD");
            lemma_name_fits("REQUEST_METHOD");
        }
        self.request_method = Some(EnvVariable::new("REQUEST_METHOD", value));
    }

    pub fn get_request_method(&self) -> (r: Option<EnvVariable<'a>>)
        ensures
            opt_view(r) == self@.request_method,
    {
        self.request_method
    }

    /// How many of the four are present.
    pub fn count(&self) -> (r: usize)
        ensures
            r == self@.count(),
    {
        slot_present(&self.script_filename) + slot_present(&self.script_name) + slot_present(
            &self.query_string,
        ) + slot_present(&self.request_method)
    }

    /// Encoded size of the present ones.
    pub fn len(&self) -> (r: usize)
        ensures
            r == self@.len(),
            r <= 4 * (2 * MAX_TEXT_LEN + 6),
    {
        slot_size(&self.script_filename) + slot_size(&self.script_name) + slot_size(
            &self.query_string,
        ) + slot_size(&self.request_method)
    }

    /// Appends the present ones, in the fixed order.
    pub fn encode_into(&self, buf: &mut BytesMut, endianness: Endianness)
        requires
            room(*old(buf), self@.len()),
        ensures
            buffer_content(*final(buf)) == buffer_content(*old(buf)) + self@.bytes(endianness),
    {
        let ghost start = buffer_content(*buf);
        let ghost v = self@;
        slot_encode_into(&self.script_filename, buf, endianness);
        let ghost c1 = buffer_content(*buf);
        assert(c1 == start + slot_bytes(v.script_filename, endianness));
        slot_encode_into(&self.script_name, buf, endianness);
        let ghost c2 = buffer_content(*buf);
        assert(c2 == c1 + slot_bytes(v.script_name, endianness));
        slot_encode_into(&self.query_string, buf, endianness);
        let ghost c3 = buffer_content(*buf);
        assert(c3 == c2 + slot_bytes(v.query_string, endianness));
        slot_encode_into(&self.request_method, buf, endianness);
        proof {
            lemma_concat4(
                start,
                slot_bytes(v.script_filename, endianness),
                slot_bytes(v.script_name, endianness),
                slot_bytes(v.query_string, endianness),
                slot_bytes(v.request_method, endianness),
            );
        }
    }
}

impl<'a> Default for RequiredEnvVariables<'a> {
    fn default() -> (r: Self)
        ensures
            r@ == (RequiredView {
                script_filename: None,
                script_name: None,
                query_string: None,
                request_method: None,
            }),
    {
        RequiredEnvVariables::new()
    }
}

proof fn lemma_concat4(s: Seq<u8>, a: Seq<u8>, b: Seq<u8>, c: Seq<u8>, d: Seq<u8>)
    ensures
        s + a + b + c + d == s + (a + b + c + d),
{
    assert(s + a + b + c + d =~= s + (a + b + c + d));
}

fn slot_present(v: &Option<EnvVariable>) -> (r: usize)
    ensures
        r == slot_count(opt_view(*v)),
{
    match v {
        Some(_) => 1,
        None => 0,
    }
}

fn slot_size(v: &Option<EnvVariable>) -> (r: usize)
    ensures
        r == slot_len(opt_view(*v)),
        r <= 2 * MAX_TEXT_LEN + 6,
{
    match v {
        Some(v) => v.len(),
        None => 0,
    }
}

fn slot_encode_into(v: &Option<EnvVariable>, buf: &mut BytesMut, endianness: Endianness)
    requires
        room(*old(buf), slot_len(opt_view(*v))),
    ensures
        buffer_content(*final(buf)) == buffer_content(*old(buf)) + slot_bytes(
            opt_view(*v),
            endianness,
        ),
        buffer_content(*final(buf)).len() == buffer_content(*old(buf)).len() + slot_len(
            opt_view(*v),
        ),
{
    proof {
        if let Some(x) = opt_view(*v) {
            lemma_encode_var_len(x, endianness);
        }
    }
    match v {
        Some(v) => v.encode_into(buf, endianness),
        None => {
            assert(buffer_content(*buf) =~= buffer_content(*old(buf)) + slot_bytes(
                opt_view(*v),
                endianness,
            ));
        },
    }
}

} // verus!
