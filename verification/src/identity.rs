use vstd::prelude::*;
use vstd::string::StrSliceExecFns;
use vstd::string::StringExecFns;

verus! {

/// A character that may not occur in the local part or the domain of an
/// identifier, because it separates the parts of the textual form.
pub open spec fn is_separator(c: char) -> bool {
    c == '@' || c == '/'
}

/// Mathematical model of a protocol identifier `local@domain[/resource]`.
pub struct IdentityV {
    pub local: Seq<char>,
    pub domain: Seq<char>,
    pub resource: Option<Seq<char>>,
}

impl IdentityV {
    /// Well-formed identifier: non-empty local part and domain, neither of
    /// them containing a separator, and a non-empty resource when present.
    pub open spec fn wf(self) -> bool {
        &&& self.local.len() > 0
        &&& self.domain.len() > 0
        &&& (forall|i: int| 0 <= i < self.local.len() ==> !is_separator(self.local[i]))
        &&& (forall|i: int| 0 <= i < self.domain.len() ==> !is_separator(self.domain[i]))
        &&& (self.resource matches Some(r) ==> r.len() > 0)
    }

    /// The same identifier with its resource replaced.
    pub open spec fn with_resource(self, r: Seq<char>) -> IdentityV {
        IdentityV { local: self.local, domain: self.domain, resource: Some(r) }
    }

    /// The textual form `local@domain[/resource]`.
    pub open spec fn rendered(self) -> Seq<char> {
        self.local + seq!['@'] + self.domain + match self.resource {
            Some(r) => seq!['/'] + r,
            None => Seq::<char>::empty(),
        }
    }
}

/// First index in `[from, to)` of `s` at which `c` occurs, or `to` when it
/// does not occur there.
pub open spec fn find_in(s: Seq<char>, from: int, to: int, c: char) -> int
    decreases to - from,
{
    if from >= to {
        to
    } else if s[from] == c {
        from
    } else {
        find_in(s, from + 1, to, c)
    }
}

/// What `find_in` returns: an index in `[from, to]`, holding `c` when it is
/// below `to`, with no occurrence of `c` before it.
pub proof fn lemma_find_in(s: Seq<char>, from: int, to: int, c: char)
    requires
        0 <= from <= to <= s.len(),
    ensures
        from <= find_in(s, from, to, c) <= to,
        find_in(s, from, to, c) < to ==> s[find_in(s, from, to, c)] == c,
        forall|k: int| from <= k < find_in(s, from, to, c) ==> s[k] != c,
    decreases to - from,
{
    if from < to && s[from] != c {
        lemma_find_in(s, from + 1, to, c);
    }
}

/// The identifier denoted by the text `s`, if `s` has the shape
/// `local@domain[/resource]`: the resource starts after the first `/`, the
/// local part ends at the first `@` before that, all three parts are
/// non-empty, and the domain contains no further `@`.
pub open spec fn parse_spec(s: Seq<char>) -> Option<IdentityV> {
    let n = s.len() as int;
    let sl = find_in(s, 0, n, '/');
    let a = find_in(s, 0, sl, '@');
    if 0 < a && a + 1 < sl && find_in(s, a + 1, sl, '@') == sl && (sl == n || sl + 1 < n) {
        Some(IdentityV {
            local: s.subrange(0, a),
            domain: s.subrange(a + 1, sl),
            resource: if sl < n {
                Some(s.subrange(sl + 1, n))
            } else {
                None
            },
        })
    } else {
        None
    }
}

/// A successfully parsed identifier is well formed and renders back to the
/// exact text it was parsed from.
pub proof fn lemma_parse_spec_wf(s: Seq<char>)
    ensures
        parse_spec(s) matches Some(id) ==> id.wf() && id.rendered() == s,
{
    if parse_spec(s) is Some {
        let id = parse_spec(s).unwrap();
        let n = s.len() as int;
        let sl = find_in(s, 0, n, '/');
        let a = find_in(s, 0, sl, '@');
        lemma_find_in(s, 0, n, '/');
        lemma_find_in(s, 0, sl, '@');
        lemma_find_in(s, a + 1, sl, '@');
        assert(id.rendered() =~= s);
    }
}

/// Opaque, comparable handle for a protocol participant or room, stored in
/// its parsed form. Immutable once parsed; equality is value equality.
#[derive(Debug, PartialEq, Eq)]
pub struct Identity {
    pub local: String,
    pub domain: String,
    pub resource: Option<String>,
}

impl View for Identity {
    type V = IdentityV;

    open spec fn view(&self) -> IdentityV {
        IdentityV {
            local: self.local@,
            domain: self.domain@,
            resource: match self.resource {
                Some(r) => Some(r@),
                None => None,
            },
        }
    }
}

impl Clone for Identity {
    fn clone(&self) -> (r: Self)
        ensures
            r@ == self@,
    {
        Identity {
            local: self.local.clone(),
            domain: self.domain.clone(),
            resource: match &self.resource {
                Some(r) => Some(r.clone()),
                None => None,
            },
        }
    }
}

/// First index in `[from, to)` of `s` at which `c` occurs, or `to` when it
/// does not occur there.
fn find_char(s: &str, from: usize, to: usize, c: char) -> (r: usize)
    requires
        from <= to <= s@.len(),
    ensures
        r == find_in(s@, from as int, to as int, c),
        from <= r <= to,
{
    let mut i: usize = from;
    while i < to
        invariant
            from <= i <= to <= s@.len(),
            find_in(s@, from as int, to as int, c) == find_in(s@, i as int, to as int, c),
        decreases to - i,
    {
        if s.get_char(i) == c {
            return i;
        }
        i = i + 1;
    }
    i
}

impl Identity {
    /// Parse the textual form `local@domain[/resource]`; reject any other
    /// text.
    pub fn parse(s: &str) -> (r: Option<Identity>)
        ensures
            match r {
                Some(id) => parse_spec(s@) == Some(id@),
                None => parse_spec(s@) is None,
            },
    {
        let n = s.unicode_len();
        let sl = find_char(s, 0, n, '/');
        let a = find_char(s, 0, sl, '@');
        if 0 < a && a < sl && a + 1 < sl && (sl == n || sl + 1 < n) {
            let second = find_char(s, a + 1, sl, '@');
            if second == sl {
                let local = s.substring_char(0, a).to_owned();
                let domain = s.substring_char(a + 1, sl).to_owned();
                let resource = if sl < n {
                    Some(s.substring_char(sl + 1, n).to_owned())
                } else {
                    None
                };
                return Some(Identity { local, domain, resource });
            }
            return None;
        }
        None
    }

    /// The textual form `local@domain[/resource]` of this identifier.
    pub fn render(&self) -> (r: String)
        ensures
            r@ == self@.rendered(),
    {
        proof {
            reveal_strlit("@");
            reveal_strlit("/");
        }
        let mut r = self.local.clone();
        r.append("@");
        r.append(self.domain.as_str());
        match &self.resource {
            Some(res) => {
                r.append("/");
                r.append(res.as_str());
            },
            None => {},
        }
        proof {
            assert(r@ =~= self@.rendered());
        }
        r
    }

    /// The same identifier with `resource` as its resource qualifier.
    pub fn with_resource(&self, resource: &str) -> (r: Identity)
        ensures
            r@ == self@.with_resource(resource@),
    {
        Identity {
            local: self.local.clone(),
            domain: self.domain.clone(),
            resource: Some(resource.to_owned()),
        }
    }
}

} // verus!
