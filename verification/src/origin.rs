use std::sync::Arc;
use vstd::hash_set::StringHashSet;
use vstd::prelude::*;

verus! {

/// A network location: either bound to the loopback interface or externally addressed.
pub enum Origin {
    Local { port: u16 },
    Remote { ip: &'static str, port: u16 },
}

/// The address every `Origin::Local` resolves to.
pub open spec fn loopback() -> Seq<char> {
    "127.0.0.1"@
}

impl Origin {
    /// The address of this origin as a model value.
    pub open spec fn spec_ip(&self) -> Seq<char> {
        match self {
            Origin::Local { .. } => loopback(),
            Origin::Remote { ip, .. } => ip@,
        }
    }

    /// The port of this origin as a model value.
    pub open spec fn spec_port(&self) -> u16 {
        match self {
            Origin::Local { port } => *port,
            Origin::Remote { port, .. } => *port,
        }
    }

    /// The configured address for `Remote`, the loopback address for `Local`.
    #[verifier::when_used_as_spec(spec_ip_str)]
    pub fn ip(&self) -> (r: &'static str)
        ensures
            r@ == self.spec_ip(),
            self matches Origin::Remote { ip, .. } ==> r == ip,
            self is Local ==> r@ == loopback(),
    {
        match self {
            Origin::Remote { ip, .. } => *ip,
            Origin::Local { .. } => "127.0.0.1",
        }
    }

    /// The configured port, whichever the variant.
    #[verifier::when_used_as_spec(spec_port)]
    pub fn port(&self) -> (r: u16)
        ensures
            r == self.spec_port(),
    {
        match self {
            Origin::Local { port } => *port,
            Origin::Remote { port, .. } => *port,
        }
    }

    /// The address as a string slice, for use where `ip` stands in a contract.
    pub open spec fn spec_ip_str(&self) -> &'static str {
        match self {
            Origin::Local { .. } => "127.0.0.1",
            Origin::Remote { ip, .. } => *ip,
        }
    }
}

/// The addresses of a list of origins, ports left aside.
pub open spec fn addresses(origins: Seq<Origin>) -> Set<Seq<char>> {
    Set::new(
        |a: Seq<char>| exists|i: int| 0 <= i < origins.len() && #[trigger] origins[i].spec_ip() == a,
    )
}

/// An immutable set of the addresses from which callers are admitted.
#[derive(Clone)]
pub struct AllowedOrigins {
    origins: Arc<StringHashSet>,
}

impl View for AllowedOrigins {
    type V = Set<Seq<char>>;

    closed spec fn view(&self) -> Set<Seq<char>> {
        self.origins@
    }
}

impl AllowedOrigins {
    /// Whether `origin` is one of the admitted addresses. The whole string is compared.
    pub fn contains(&self, origin: &str) -> (r: bool)
        ensures
            r == self@.contains(origin@),
    {
        self.origins.contains(origin)
    }

    /// The registry of the addresses of `value`; the ports play no part.
    pub fn from(value: &Vec<Origin>) -> (r: Self)
        ensures
            r@ == addresses(value@),
    {
        let mut set = StringHashSet::new();
        let mut i: usize = 0;
        while i < value.len()
            invariant
                i <= value.len(),
                set@ == addresses(value@.subrange(0, i as int)),
            decreases value.len() - i,
        {
            let ghost before = value@.subrange(0, i as int);
            let ghost after = value@.subrange(0, i as int + 1);
            set.insert(String::from_str(value[i].ip()));
            proof {
                assert(after[i as int] == value@[i as int]);
                assert forall|a: Seq<char>|
                    addresses(before).insert(value@[i as int].spec_ip()).contains(a)
                        == addresses(after).contains(a) by {
                    if addresses(before).contains(a) {
                        let j = choose|j: int|
                            0 <= j < before.len() && #[trigger] before[j].spec_ip() == a;
                        assert(after[j] == before[j]);
                    }
                    if addresses(after).contains(a) {
                        let j = choose|j: int|
                            0 <= j < after.len() && #[trigger] after[j].spec_ip() == a;
                        if j < i {
                            assert(before[j] == after[j]);
                        }
                    }
                }
                assert(set@ =~= addresses(after));
            }
            i += 1;
        }
        assert(value@.subrange(0, i as int) =~= value@);
        AllowedOrigins { origins: Arc::new(set) }
    }
}

/// A registry built from an empty list admits no address.
pub proof fn empty_list_admits_nothing(a: Seq<char>)
    ensures
        !addresses(Seq::<Origin>::empty()).contains(a),
{
}

/// The registry of a list holds exactly the addresses of its origins: an address is
/// admitted if and only if some origin of the list resolves to it.
pub proof fn registry_holds_listed_addresses(origins: Seq<Origin>, i: int)
    requires
        0 <= i < origins.len(),
    ensures
        addresses(origins).contains(origins[i].spec_ip()),
{
}

/// Two lists whose origins resolve to the same addresses, position by position, give the
/// same registry, whatever their ports are.
pub proof fn registry_ignores_ports(a: Seq<Origin>, b: Seq<Origin>)
    requires
        a.len() == b.len(),
        forall|i: int| 0 <= i < a.len() ==> a[i].spec_ip() == b[i].spec_ip(),
    ensures
        addresses(a) == addresses(b),
{
    assert forall|x: Seq<char>| addresses(a).contains(x) == addresses(b).contains(x) by {
        if addresses(a).contains(x) {
            let i = choose|i: int| 0 <= i < a.len() && #[trigger] a[i].spec_ip() == x;
            assert(b[i].spec_ip() == x);
        }
        if addresses(b).contains(x) {
            let i = choose|i: int| 0 <= i < b.len() && #[trigger] b[i].spec_ip() == x;
            assert(a[i].spec_ip() == x);
        }
    }
    assert(addresses(a) =~= addresses(b));
}

} // verus!
