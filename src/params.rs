//! CGI/1.1 meta-variables for the FastCGI variant of the protocol: a
//! mapping from names to values, with unique names.

use vstd::prelude::*;
use vstd::string::StringSliceAdditionalSpecFns;

use crate::http_headers::same_bytes;
use crate::text::{decimal, decimal_bytes, parse_usize, parsed_usize};

verus! {

/// The mapping that a list of name/value pairs spells, later pairs
/// overriding earlier ones.
pub open spec fn pairs_map(s: Seq<(Seq<u8>, Seq<u8>)>) -> Map<Seq<u8>, Seq<u8>>
    decreases s.len(),
{
    if s.len() == 0 {
        Map::empty()
    } else {
        pairs_map(s.drop_last()).insert(s.last().0, s.last().1)
    }
}

/// Whether no two pairs have the same name.
pub open spec fn names_unique(s: Seq<(Seq<u8>, Seq<u8>)>) -> bool {
    forall|i: int, j: int| 0 <= i < j < s.len() ==> s[i].0 != s[j].0
}

proof fn lemma_pairs_map_has(s: Seq<(Seq<u8>, Seq<u8>)>, k: Seq<u8>)
    ensures
        pairs_map(s).contains_key(k) <==> exists|i: int| 0 <= i < s.len() && s[i].0 == k,
        pairs_map(s).dom().finite(),
    decreases s.len(),
{
    if s.len() > 0 {
        lemma_pairs_map_has(s.drop_last(), k);
        if pairs_map(s.drop_last()).contains_key(k) {
            let i = choose|i: int| 0 <= i < s.len() - 1 && s.drop_last()[i].0 == k;
            assert(s[i].0 == k);
        }
        if exists|i: int| 0 <= i < s.len() && s[i].0 == k {
            let i = choose|i: int| 0 <= i < s.len() && s[i].0 == k;
            if i < s.len() - 1 {
                assert(s.drop_last()[i].0 == k);
            }
        }
    }
}

proof fn lemma_pairs_map_at(s: Seq<(Seq<u8>, Seq<u8>)>, i: int)
    requires
        names_unique(s),
        0 <= i < s.len(),
    ensures
        pairs_map(s).contains_key(s[i].0),
        pairs_map(s)[s[i].0] == s[i].1,
    decreases s.len(),
{
    if i < s.len() - 1 {
        lemma_pairs_map_at(s.drop_last(), i);
    }
}

proof fn lemma_pairs_map_update(s: Seq<(Seq<u8>, Seq<u8>)>, i: int, v: Seq<u8>)
    requires
        names_unique(s),
        0 <= i < s.len(),
    ensures
        pairs_map(s.update(i, (s[i].0, v))) == pairs_map(s).insert(s[i].0, v),
    decreases s.len(),
{
    let t = s.update(i, (s[i].0, v));
    if i == s.len() - 1 {
        assert(t.drop_last() =~= s.drop_last());
        assert(pairs_map(t) =~= pairs_map(s).insert(s[i].0, v));
    } else {
        lemma_pairs_map_update(s.drop_last(), i, v);
        assert(t.drop_last() =~= s.drop_last().update(i, (s[i].0, v)));
        assert(s.last().0 != s[i].0);
        assert(pairs_map(t) =~= pairs_map(s).insert(s[i].0, v));
    }
}

proof fn lemma_pairs_map_len(s: Seq<(Seq<u8>, Seq<u8>)>)
    requires
        names_unique(s),
    ensures
        pairs_map(s).dom().len() == s.len(),
    decreases s.len(),
{
    broadcast use vstd::set::axiom_set_insert_len;

    if s.len() > 0 {
        lemma_pairs_map_len(s.drop_last());
        lemma_pairs_map_has(s.drop_last(), s.last().0);
        assert(!pairs_map(s.drop_last()).contains_key(s.last().0));
    }
}

/// The name/value pairs that a list of byte vectors holds.
pub open spec fn pairs_of(v: Seq<(Vec<u8>, Vec<u8>)>) -> Seq<(Seq<u8>, Seq<u8>)> {
    v.map_values(|p: (Vec<u8>, Vec<u8>)| (p.0@, p.1@))
}

/// Sets a name to a value in a list of pairs, replacing the value it had.
fn insert_pair(entries: &mut Vec<(Vec<u8>, Vec<u8>)>, name: Vec<u8>, value: Vec<u8>)
    requires
        names_unique(pairs_of(old(entries)@)),
    ensures
        names_unique(pairs_of(final(entries)@)),
        pairs_map(pairs_of(final(entries)@)) == pairs_map(pairs_of(old(entries)@)).insert(
            name@,
            value@,
        ),
{
    let ghost before = pairs_of(entries@);
    let mut i: usize = 0;
    while i < entries.len()
        invariant
            i <= entries@.len(),
            before == pairs_of(entries@),
            before == pairs_of(old(entries)@),
            names_unique(before),
            forall|j: int| 0 <= j < i ==> before[j].0 != name@,
        decreases entries@.len() - i,
    {
        if same_bytes(entries[i].0.as_slice(), name.as_slice()) {
            proof {
                assert(before[i as int].0 == name@);
                lemma_pairs_map_update(before, i as int, value@);
            }
            entries.set(i, (name, value));
            assert(pairs_of(entries@) =~= before.update(i as int, (before[i as int].0, value@)));
            return;
        }
        i = i + 1;
    }
    proof {
        lemma_pairs_map_has(before, name@);
    }
    entries.push((name, value));
    assert(pairs_of(entries@) =~= before.push((name@, value@)));
    assert(pairs_of(entries@).drop_last() =~= before);
}

/// FastCGI parameters: CGI/1.1 meta-variables by name.
#[derive(Debug)]
pub struct Params {
    entries: Vec<(Vec<u8>, Vec<u8>)>,
}

impl Params {
    /// The name/value pairs, in the order their names were first set.
    pub closed spec fn pairs(&self) -> Seq<(Seq<u8>, Seq<u8>)> {
        pairs_of(self.entries@)
    }

    #[verifier::type_invariant]
    closed spec fn unique(self) -> bool {
        names_unique(self.pairs())
    }
}

impl View for Params {
    type V = Map<Seq<u8>, Seq<u8>>;

    closed spec fn view(&self) -> Map<Seq<u8>, Seq<u8>> {
        pairs_map(self.pairs())
    }
}

impl Params {
    /// No parameters.
    pub fn new() -> (r: Self)
        ensures
            r@ == Map::<Seq<u8>, Seq<u8>>::empty(),
    {
        let r = Params { entries: Vec::new() };
        assert(r.pairs() =~= Seq::<(Seq<u8>, Seq<u8>)>::empty());
        r
    }

    /// The value set for a name.
    pub fn get(&self, name: &str) -> (r: Option<&Vec<u8>>)
        ensures
            match r {
                Some(v) => self@.contains_key(name.spec_bytes()) && v@ == self@[name.spec_bytes()],
                None => !self@.contains_key(name.spec_bytes()),
            },
    {
        proof {
            use_type_invariant(self);
        }
        let key = name.as_bytes();
        let mut i: usize = 0;
        while i < self.entries.len()
            invariant
                i <= self.entries@.len(),
                key@ == name.spec_bytes(),
                names_unique(self.pairs()),
                forall|j: int| 0 <= j < i ==> self.pairs()[j].0 != key@,
            decreases self.entries@.len() - i,
        {
            if same_bytes(self.entries[i].0.as_slice(), key) {
                proof {
                    assert(self.pairs()[i as int] == (
                        self.entries@[i as int].0@,
                        self.entries@[i as int].1@,
                    ));
                    lemma_pairs_map_at(self.pairs(), i as int);
                }
                return Some(&self.entries[i].1);
            }
            i = i + 1;
        }
        proof {
            lemma_pairs_map_has(self.pairs(), key@);
        }
        None
    }

    /// Number of names set.
    pub fn len(&self) -> (r: usize)
        ensures
            self@.dom().finite(),
            r == self@.dom().len(),
    {
        proof {
            use_type_invariant(self);
            lemma_pairs_map_len(self.pairs());
            lemma_pairs_map_has(self.pairs(), Seq::empty());
        }
        self.entries.len()
    }

    fn with(self, name: &str, value: Vec<u8>) -> (r: Self)
        ensures
            r@ == self@.insert(name.spec_bytes(), value@),
    {
        proof {
            use_type_invariant(&self);
        }
        let Params { entries } = self;
        let mut entries = entries;
        insert_pair(&mut entries, vstd::slice::slice_to_vec(name.as_bytes()), value);
        Params { entries }
    }

    pub fn gateway_interface(self, value: &str) -> (r: Self)
        ensures
            r@ == self@.insert("GATEWAY_INTERFACE".spec_bytes(), value.spec_bytes()),
    {
        self.with("GATEWAY_INTERFACE", vstd::slice::slice_to_vec(value.as_bytes()))
    }

    pub fn server_software(self, value: &str) -> (r: Self)
        ensures
            r@ == self@.insert("SERVER_SOFTWARE".spec_bytes(), value.spec_bytes()),
    {
        self.with("SERVER_SOFTWARE", vstd::slice::slice_to_vec(value.as_bytes()))
    }

    pub fn server_protocol(self, value: &str) -> (r: Self)
        ensures
            r@ == self@.insert("SERVER_PROTOCOL".spec_bytes(), value.spec_bytes()),
    {
        self.with("SERVER_PROTOCOL", vstd::slice::slice_to_vec(value.as_bytes()))
    }

    pub fn request_method(self, value: &str) -> (r: Self)
        ensures
            r@ == self@.insert("REQUEST_METHOD".spec_bytes(), value.spec_bytes()),
    {
        self.with("REQUEST_METHOD", vstd::slice::slice_to_vec(value.as_bytes()))
    }

    pub fn script_filename(self, value: &str) -> (r: Self)
        ensures
            r@ == self@.insert("SCRIPT_FILENAME".spec_bytes(), value.spec_bytes()),
    {
        self.with("SCRIPT_FILENAME", vstd::slice::slice_to_vec(value.as_bytes()))
    }

    pub fn script_name(self, value: &str) -> (r: Self)
        ensures
            r@ == self@.insert("SCRIPT_NAME".spec_bytes(), value.spec_bytes()),
    {
        self.with("SCRIPT_NAME", vstd::slice::slice_to_vec(value.as_bytes()))
    }

    pub fn query_string(self, value: &str) -> (r: Self)
        ensures
            r@ == self@.insert("QUERY_STRING".spec_bytes(), value.spec_bytes()),
    {
        self.with("QUERY_STRING", vstd::slice::slice_to_vec(value.as_bytes()))
    }

    pub fn request_uri(self, value: &str) -> (r: Self)
        ensures
            r@ == self@.insert("REQUEST_URI".spec_bytes(), value.spec_bytes()),
    {
        self.with("REQUEST_URI", vstd::slice::slice_to_vec(value.as_bytes()))
    }

    pub fn document_root(self, value: &str) -> (r: Self)
        ensures
            r@ == self@.insert("DOCUMENT_ROOT".spec_bytes(), value.spec_bytes()),
    {
        self.with("DOCUMENT_ROOT", vstd::slice::slice_to_vec(value.as_bytes()))
    }

    pub fn document_uri(self, value: &str) -> (r: Self)
        ensures
            r@ == self@.insert("DOCUMENT_URI".spec_bytes(), value.spec_bytes()),
    {
        self.with("DOCUMENT_URI", vstd::slice::slice_to_vec(value.as_bytes()))
    }

    pub fn remote_addr(self, value: &str) -> (r: Self)
        ensures
            r@ == self@.insert("REMOTE_ADDR".spec_bytes(), value.spec_bytes()),
    {
        self.with("REMOTE_ADDR", vstd::slice::slice_to_vec(value.as_bytes()))
    }

    pub fn server_addr(self, value: &str) -> (r: Self)
        ensures
            r@ == self@.insert("SERVER_ADDR".spec_bytes(), value.spec_bytes()),
    {
        self.with("SERVER_ADDR", vstd::slice::slice_to_vec(value.as_bytes()))
    }

    pub fn server_name(self, value: &str) -> (r: Self)
        ensures
            r@ == self@.insert("SERVER_NAME".spec_bytes(), value.spec_bytes()),
    {
        self.with("SERVER_NAME", vstd::slice::slice_to_vec(value.as_bytes()))
    }

    pub fn content_type(self, value: &str) -> (r: Self)
        ensures
            r@ == self@.insert("CONTENT_TYPE".spec_bytes(), value.spec_bytes()),
    {
        self.with("CONTENT_TYPE", vstd::slice::slice_to_vec(value.as_bytes()))
    }

    pub fn path_info(self, value: &str) -> (r: Self)
        ensures
            r@ == self@.insert("PATH_INFO".spec_bytes(), value.spec_bytes()),
    {
        self.with("PATH_INFO", vstd::slice::slice_to_vec(value.as_bytes()))
    }

    pub fn path_translated(self, value: &str) -> (r: Self)
        ensures
            r@ == self@.insert("PATH_TRANSLATED".spec_bytes(), value.spec_bytes()),
    {
        self.with("PATH_TRANSLATED", vstd::slice::slice_to_vec(value.as_bytes()))
    }

    /// Sets REMOTE_PORT to the decimal text of the number.
    pub fn remote_port(self, remote_port: u16) -> (r: Self)
        ensures
            r@ == self@.insert("REMOTE_PORT".spec_bytes(), decimal_bytes(remote_port as nat)),
    {
        self.with("REMOTE_PORT", decimal(remote_port as u64))
    }

    /// Sets SERVER_PORT to the decimal text of the number.
    pub fn server_port(self, server_port: u16) -> (r: Self)
        ensures
            r@ == self@.insert("SERVER_PORT".spec_bytes(), decimal_bytes(server_port as nat)),
    {
        self.with("SERVER_PORT", decimal(server_port as u64))
    }

    /// Sets CONTENT_LENGTH to the decimal text of the number.
    pub fn content_length(self, content_length: usize) -> (r: Self)
        ensures
            r@ == self@.insert("CONTENT_LENGTH".spec_bytes(), decimal_bytes(content_length as nat)),
    {
        self.with("CONTENT_LENGTH", decimal(content_length as u64))
    }

    /// Sets HTTPS to `true` or `false`.
    pub fn https(self, https: bool) -> (r: Self)
        ensures
            r@ == self@.insert(
                "HTTPS".spec_bytes(),
                if https {
                    "true".spec_bytes()
                } else {
                    "false".spec_bytes()
                },
            ),
    {
        let text = if https {
            "true"
        } else {
            "false"
        };
        self.with("HTTPS", vstd::slice::slice_to_vec(text.as_bytes()))
    }

    /// Sets a name outside the well-known set.
    pub fn http_header(self, header_key: &str, header_value: &str) -> (r: Self)
        ensures
            r@ == self@.insert(header_key.spec_bytes(), header_value.spec_bytes()),
    {
        self.with(header_key, vstd::slice::slice_to_vec(header_value.as_bytes()))
    }
}

/// The text of an optional value, empty when it is absent.
pub open spec fn text_or_empty(v: Option<&str>) -> Seq<u8> {
    match v {
        Some(t) => t.spec_bytes(),
        None => Seq::empty(),
    }
}

/// The number an optional content length spells, zero when it is absent or
/// not a number.
pub open spec fn length_or_zero(v: Option<&str>) -> nat {
    match v {
        Some(t) => match parsed_usize(t.spec_bytes()) {
            Some(n) => n as nat,
            None => 0,
        },
        None => 0,
    }
}

impl Params {
    /// The parameters of an inbound HTTP request: its method, URI and query
    /// string, and its content type and length headers. A missing query,
    /// type or length counts as empty; a length that is not a number counts
    /// as zero.
    pub fn for_request(
        method: &str,
        uri: &str,
        query: Option<&str>,
        content_type: Option<&str>,
        content_length: Option<&str>,
    ) -> (r: Self)
        ensures
            r@ == Map::<Seq<u8>, Seq<u8>>::empty().insert(
                "GATEWAY_INTERFACE".spec_bytes(),
                "CGI/1.1".spec_bytes(),
            ).insert("REQUEST_METHOD".spec_bytes(), method.spec_bytes()).insert(
                "REQUEST_URI".spec_bytes(),
                uri.spec_bytes(),
            ).insert("QUERY_STRING".spec_bytes(), text_or_empty(query)).insert(
                "CONTENT_TYPE".spec_bytes(),
                text_or_empty(content_type),
            ).insert("CONTENT_LENGTH".spec_bytes(), decimal_bytes(length_or_zero(content_length))),
    {
        let query = match query {
            Some(q) => q,
            None => "",
        };
        let content_type = match content_type {
            Some(t) => t,
            None => "",
        };
        let length: usize = match content_length {
            Some(t) => match parse_usize(t.as_bytes()) {
                Some(n) => n,
                None => 0,
            },
            None => 0,
        };
        proof {
            reveal_strlit("");
        }
        Params::default().request_method(method).request_uri(uri).query_string(
            query,
        ).content_type(content_type).content_length(length)
    }
}

impl Default for Params {
    /// Parameters that declare the CGI/1.1 gateway interface.
    fn default() -> (r: Self)
        ensures
            r@ == Map::<Seq<u8>, Seq<u8>>::empty().insert(
                "GATEWAY_INTERFACE".spec_bytes(),
                "CGI/1.1".spec_bytes(),
            ),
    {
        Params::new().gateway_interface("CGI/1.1")
    }
}

} // verus!
