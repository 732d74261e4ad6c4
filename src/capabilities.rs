//! The capability set a server announces.
use vstd::prelude::*;
use vstd::string::StringSliceAdditionalSpecFns;
use vstd::utf8::encode_utf8;
use vstd::std_specs::slice::into_iter_elts;

verus! {

/// A capability, with any name given as its UTF-8 bytes.
pub enum CapabilityView {
    Imap4rev1,
    Auth(Seq<u8>),
    Atom(Seq<u8>),
}

/// A capability a server announces.
#[derive(Debug, Clone, PartialEq, Eq, Hash)]
pub enum Capability {
    /// The crucial imap capability.
    Imap4rev1,
    /// Auth type capability.
    Auth(String),
    /// Any other atoms.
    Atom(String),
}

impl View for Capability {
    type V = CapabilityView;

    open spec fn view(&self) -> CapabilityView {
        match self {
            Capability::Imap4rev1 => CapabilityView::Imap4rev1,
            Capability::Auth(s) => CapabilityView::Auth(encode_utf8(s@)),
            Capability::Atom(s) => CapabilityView::Atom(encode_utf8(s@)),
        }
    }
}

/// The byte `b` with ASCII upper case letters mapped to lower case.
pub open spec fn ascii_lower(b: u8) -> u8 {
    if 65 <= b <= 90 { (b + 32) as u8 } else { b }
}

/// Whether two byte strings are equal once ASCII letters are lower-cased.
pub open spec fn eq_ignore_ascii_case(a: Seq<u8>, b: Seq<u8>) -> bool {
    a.len() == b.len() && forall|i: int| 0 <= i < a.len() ==> #[trigger] ascii_lower(a[i]) == ascii_lower(b[i])
}

/// The bytes of `IMAP4rev1`.
pub open spec fn imap4rev1_text() -> Seq<u8> {
    seq![73u8, 77, 65, 80, 52, 114, 101, 118, 49]
}

/// The bytes of `AUTH=`.
pub open spec fn auth_prefix_text() -> Seq<u8> {
    seq![65u8, 85, 84, 72, 61]
}

/// The capability that the name `s` stands for: `IMAP4rev1` and the `AUTH=`
/// prefix in any letter case, anything else as an atom.
pub open spec fn capability_named(s: Seq<u8>) -> CapabilityView {
    if eq_ignore_ascii_case(s, imap4rev1_text()) {
        CapabilityView::Imap4rev1
    } else if s.len() > 5 && eq_ignore_ascii_case(s.subrange(0, 5), auth_prefix_text()) {
        CapabilityView::Auth(s.subrange(5, s.len() as int))
    } else {
        CapabilityView::Atom(s)
    }
}

/// ASCII case-insensitive comparison of two byte strings.
pub fn bytes_eq_ignore_ascii_case(a: &[u8], b: &[u8]) -> (r: bool)
    ensures
        r == eq_ignore_ascii_case(a@, b@),
{
    if a.len() != b.len() {
        return false;
    }
    let mut i: usize = 0;
    while i < a.len()
        invariant
            a@.len() == b@.len(),
            0 <= i <= a@.len(),
            forall|j: int| 0 <= j < i ==> #[trigger] ascii_lower(a@[j]) == ascii_lower(b@[j]),
        decreases a@.len() - i,
    {
        let x = a[i];
        let y = b[i];
        let lx = if 65 <= x && x <= 90 { x + 32 } else { x };
        let ly = if 65 <= y && y <= 90 { y + 32 } else { y };
        assert(lx == ascii_lower(a@[i as int]) && ly == ascii_lower(b@[i as int]));
        if lx != ly {
            return false;
        }
        i = i + 1;
    }
    true
}

/// Byte-for-byte comparison of two byte strings.
pub fn bytes_eq(a: &[u8], b: &[u8]) -> (r: bool)
    ensures
        r == (a@ == b@),
{
    if a.len() != b.len() {
        return false;
    }
    let mut i: usize = 0;
    while i < a.len()
        invariant
            a@.len() == b@.len(),
            0 <= i <= a@.len(),
            forall|j: int| 0 <= j < i ==> a@[j] == b@[j],
        decreases a@.len() - i,
    {
        if a[i] != b[i] {
            return false;
        }
        i = i + 1;
    }
    assert(a@ =~= b@);
    true
}

/// Whether two capabilities are the same once the letter case of their
/// names is ignored.
pub open spec fn same_capability(a: CapabilityView, b: CapabilityView) -> bool {
    match a {
        CapabilityView::Imap4rev1 => b is Imap4rev1,
        CapabilityView::Auth(x) => b matches CapabilityView::Auth(y) && eq_ignore_ascii_case(x, y),
        CapabilityView::Atom(x) => b matches CapabilityView::Atom(y) && eq_ignore_ascii_case(x, y),
    }
}

/// Whether `caps` holds `c`, names compared without regard to letter case.
pub open spec fn holds_capability(caps: Seq<CapabilityView>, c: CapabilityView) -> bool {
    exists|i: int| 0 <= i < caps.len() && #[trigger] same_capability(caps[i], c)
}

/// Whether capability `c` is the one described by `kind` and `name`,
/// ignoring the letter case of names.
fn matches_view_ignore_case(c: &Capability, kind: u8, name: &[u8]) -> (r: bool)
    ensures
        r == same_capability(c@, view_of(kind, name@)),
{
    match c {
        Capability::Imap4rev1 => kind == 0,
        Capability::Auth(s) => kind == 1 && bytes_eq_ignore_ascii_case(s.as_str().as_bytes(), name),
        Capability::Atom(s) => kind != 0 && kind != 1 && bytes_eq_ignore_ascii_case(s.as_str().as_bytes(), name),
    }
}

/// Whether capability `c` is the one described by `view`.
fn matches_view(c: &Capability, kind: u8, name: &[u8]) -> (r: bool)
    ensures
        r == (c@ == view_of(kind, name@)),
{
    match c {
        Capability::Imap4rev1 => kind == 0,
        Capability::Auth(s) => kind == 1 && bytes_eq(s.as_str().as_bytes(), name),
        Capability::Atom(s) => kind != 0 && kind != 1 && bytes_eq(s.as_str().as_bytes(), name),
    }
}

/// The capability of kind `kind` (`0`: IMAP4rev1, `1`: AUTH, else an atom) named `name`.
pub open spec fn view_of(kind: u8, name: Seq<u8>) -> CapabilityView {
    if kind == 0 {
        CapabilityView::Imap4rev1
    } else if kind == 1 {
        CapabilityView::Auth(name)
    } else {
        CapabilityView::Atom(name)
    }
}

/// The set of capabilities a server announces, each held once.
#[derive(Debug)]
pub struct Capabilities {
    caps: Vec<Capability>,
}

impl View for Capabilities {
    type V = Seq<CapabilityView>;

    closed spec fn view(&self) -> Seq<CapabilityView> {
        self.caps@.map_values(|c: Capability| c@)
    }
}

impl Capabilities {
    /// No capability is held twice.
    pub open spec fn wf(&self) -> bool {
        self@.no_duplicates()
    }

    /// The empty set.
    pub fn new() -> (r: Self)
        ensures
            r.wf(),
            r@ == Seq::<CapabilityView>::empty(),
    {
        let r = Capabilities { caps: Vec::new() };
        assert(r@ =~= Seq::<CapabilityView>::empty());
        r
    }

    fn find(&self, kind: u8, name: &[u8]) -> (r: bool)
        ensures
            r == self@.contains(view_of(kind, name@)),
    {
        let mut i: usize = 0;
        while i < self.caps.len()
            invariant
                0 <= i <= self.caps@.len(),
                forall|j: int| 0 <= j < i ==> self@[j] != view_of(kind, name@),
            decreases self.caps@.len() - i,
        {
            if matches_view(&self.caps[i], kind, name) {
                assert(self@[i as int] == view_of(kind, name@));
                return true;
            }
            i = i + 1;
        }
        false
    }

    fn find_ignore_case(&self, kind: u8, name: &[u8]) -> (r: bool)
        ensures
            r == holds_capability(self@, view_of(kind, name@)),
    {
        let mut i: usize = 0;
        while i < self.caps.len()
            invariant
                0 <= i <= self.caps@.len(),
                forall|j: int| 0 <= j < i ==> !#[trigger] same_capability(self@[j], view_of(kind, name@)),
            decreases self.caps@.len() - i,
        {
            if matches_view_ignore_case(&self.caps[i], kind, name) {
                assert(same_capability(self@[i as int], view_of(kind, name@)));
                return true;
            }
            i = i + 1;
        }
        false
    }

    /// Adds a capability unless it is held already.
    pub fn insert(&mut self, cap: Capability)
        requires
            old(self).wf(),
        ensures
            final(self).wf(),
            old(self)@.contains(cap@) ==> final(self)@ == old(self)@,
            !old(self)@.contains(cap@) ==> final(self)@ == old(self)@.push(cap@),
    {
        let present = match &cap {
            Capability::Imap4rev1 => self.find(0, &[]),
            Capability::Auth(s) => self.find(1, s.as_str().as_bytes()),
            Capability::Atom(s) => self.find(2, s.as_str().as_bytes()),
        };
        if !present {
            let ghost before = self@;
            self.caps.push(cap);
            assert(self@ =~= before.push(cap@));
        }
    }

    /// Check if the server has the given capability; names match in any
    /// letter case.
    pub fn has(&self, cap: &Capability) -> (r: bool)
        ensures
            r == holds_capability(self@, cap@),
    {
        match cap {
            Capability::Imap4rev1 => self.find_ignore_case(0, &[]),
            Capability::Auth(s) => self.find_ignore_case(1, s.as_str().as_bytes()),
            Capability::Atom(s) => self.find_ignore_case(2, s.as_str().as_bytes()),
        }
    }

    /// Check if the server has the capability named `cap`, in any letter case.
    pub fn has_str(&self, cap: &str) -> (r: bool)
        ensures
            r == holds_capability(self@, capability_named(cap.spec_bytes())),
    {
        let s = cap.as_bytes();
        let imap: [u8; 9] = [73u8, 77, 65, 80, 52, 114, 101, 118, 49];
        let auth: [u8; 5] = [65u8, 85, 84, 72, 61];
        assert(imap@ =~= imap4rev1_text());
        assert(auth@ =~= auth_prefix_text());
        if bytes_eq_ignore_ascii_case(s, imap.as_slice()) {
            return self.find_ignore_case(0, &[]);
        }
        if s.len() > 5 && bytes_eq_ignore_ascii_case(&s[0..5], auth.as_slice()) {
            return self.find_ignore_case(1, &s[5..s.len()]);
        }
        self.find_ignore_case(2, s)
    }

    /// Iterate over all the server's capabilities.
    pub fn iter(&self) -> (r: std::slice::Iter<'_, Capability>)
        ensures
            into_iter_elts(r).map_values(|c: Capability| c@) == self@,
    {
        let s = self.caps.as_slice();
        let r = s.iter();
        proof {
            broadcast use vstd::std_specs::slice::axiom_spec_slice_iter;
            assert(into_iter_elts(r) =~= self.caps@);
        }
        r
    }

    /// Returns how many capabilities the server has.
    pub fn len(&self) -> (r: usize)
        ensures
            r == self@.len(),
    {
        self.caps.len()
    }

    /// Returns true if the server purports to have no capabilities.
    pub fn is_empty(&self) -> (r: bool)
        ensures
            r == (self@.len() == 0),
    {
        self.caps.len() == 0
    }
}

} // verus!
