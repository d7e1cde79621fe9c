use vstd::prelude::*;

use crate::ip_addr::IpAddr;

verus! {

/// A resolver is trusted unless it is an IPv6 address in the deprecated
/// site-local block `fec0::/16` (bogus resolvers that some machines report).
pub open spec fn is_plausible_resolver(ip: IpAddr) -> bool {
    match ip {
        IpAddr::V4(_) => true,
        IpAddr::V6(octets) => !(octets@[0] == 0xfe && octets@[1] == 0xc0),
    }
}

/// The DNS servers of all adapters, adapter by adapter, in the order given.
pub open spec fn adapter_resolvers(adapters: Seq<Vec<IpAddr>>) -> Seq<IpAddr> {
    adapters.map_values(|a: Vec<IpAddr>| a@).flatten()
}

/// The system resolvers: every DNS server of every adapter that is plausible,
/// in adapter order.
pub open spec fn spec_system_resolvers(adapters: Seq<Vec<IpAddr>>) -> Seq<IpAddr> {
    adapter_resolvers(adapters).filter(|ip: IpAddr| is_plausible_resolver(ip))
}

/// Whether `ip` is kept as a system resolver.
pub fn is_plausible(ip: &IpAddr) -> (r: bool)
    ensures
        r == is_plausible_resolver(*ip),
{
    match ip {
        IpAddr::V4(_) => true,
        IpAddr::V6(octets) => !(octets[0] == 0xfe && octets[1] == 0xc0),
    }
}

/// Picks the system resolvers out of the DNS servers that each network adapter
/// reports: all of them, in order, except the IPv6 ones in `fec0::/16`.
pub fn system_resolvers(adapter_dns_servers: &Vec<Vec<IpAddr>>) -> (resolvers: Vec<IpAddr>)
    ensures
        resolvers@ == spec_system_resolvers(adapter_dns_servers@),
{
    let ghost pred = |ip: IpAddr| is_plausible_resolver(ip);
    let ghost all = adapter_dns_servers@.map_values(|a: Vec<IpAddr>| a@);
    let mut resolvers: Vec<IpAddr> = Vec::new();
    let n = adapter_dns_servers.len();
    let mut i: usize = 0;
    while i < n
        invariant
            n == adapter_dns_servers@.len(),
            all == adapter_dns_servers@.map_values(|a: Vec<IpAddr>| a@),
            i <= n,
            pred == (|ip: IpAddr| is_plausible_resolver(ip)),
            resolvers@ == all.take(i as int).flatten_alt().filter(pred),
        decreases n - i,
    {
        let servers = &adapter_dns_servers[i];
        let ghost before = all.take(i as int).flatten_alt();
        let m = servers.len();
        let mut j: usize = 0;
        while j < m
            invariant
                m == servers@.len(),
                pred == (|ip: IpAddr| is_plausible_resolver(ip)),
                j <= m,
                resolvers@ == (before + servers@.take(j as int)).filter(pred),
            decreases m - j,
        {
            let ip = servers[j];
            proof {
                assert(before + servers@.take(j + 1) =~= (before + servers@.take(j as int)).push(ip));
                (before + servers@.take(j as int)).lemma_filter_push(ip, pred);
                assert(pred(ip) == is_plausible_resolver(ip));
            }
            if is_plausible(&ip) {
                resolvers.push(ip);
            }
            j = j + 1;
        }
        proof {
            assert(servers@.take(m as int) =~= servers@);
            assert(all.take(i + 1).drop_last() =~= all.take(i as int));
            assert(all.take(i + 1).last() == servers@);
        }
        i = i + 1;
    }
    proof {
        assert(all.take(n as int) =~= all);
        all.lemma_flatten_and_flatten_alt_are_equivalent();
    }
    resolvers
}

/// `x` occurs in the concatenation of `s` exactly when it occurs in one of its parts.
proof fn lemma_flatten_contains<A>(s: Seq<Seq<A>>, x: A)
    ensures
        s.flatten().contains(x) <==> exists|a: int, k: int|
            0 <= a < s.len() && 0 <= k < s[a].len() && #[trigger] s[a][k] == x,
    decreases s.len(),
{
    if s.len() == 0 {
        assert(s.flatten() =~= Seq::<A>::empty());
    } else {
        let rest = s.drop_first();
        lemma_flatten_contains(rest, x);
        assert(s.flatten() == s.first() + rest.flatten());
        if s.flatten().contains(x) {
            let i = choose|i: int| 0 <= i < s.flatten().len() && s.flatten()[i] == x;
            if i < s.first().len() {
                assert(s[0][i] == x);
            } else {
                assert(rest.flatten()[i - s.first().len()] == x);
                let (a, k) = choose|a: int, k: int|
                    0 <= a < rest.len() && 0 <= k < rest[a].len() && #[trigger] rest[a][k] == x;
                assert(s[a + 1][k] == x);
            }
        }
        if exists|a: int, k: int| 0 <= a < s.len() && 0 <= k < s[a].len() && #[trigger] s[a][k] == x {
            let (a, k) = choose|a: int, k: int|
                0 <= a < s.len() && 0 <= k < s[a].len() && #[trigger] s[a][k] == x;
            if a == 0 {
                assert(s.flatten()[k] == x);
            } else {
                assert(rest[a - 1][k] == x);
                let i = choose|i: int| 0 <= i < rest.flatten().len() && rest.flatten()[i] == x;
                assert(s.flatten()[s.first().len() + i] == x);
            }
        }
    }
}

/// An address is a system resolver exactly when some adapter reports it as a
/// DNS server and it is not an IPv6 address in `fec0::/16`.
pub proof fn lemma_system_resolvers_membership(adapters: Seq<Vec<IpAddr>>, ip: IpAddr)
    ensures
        spec_system_resolvers(adapters).contains(ip) <==> (is_plausible_resolver(ip) && exists|
            a: int,
            k: int,
        | 0 <= a < adapters.len() && 0 <= k < adapters[a]@.len() && #[trigger] adapters[a]@[k]
            == ip),
{
    broadcast use vstd::seq_lib::group_filter_ensures;

    let pred = |x: IpAddr| is_plausible_resolver(x);
    let all = adapters.map_values(|a: Vec<IpAddr>| a@);
    let flat = all.flatten();
    lemma_flatten_contains(all, ip);
    if spec_system_resolvers(adapters).contains(ip) {
        flat.lemma_filter_contains_rev(pred, ip);
        let i = choose|i: int|
            0 <= i < flat.filter(pred).len() && flat.filter(pred)[i] == ip;
        assert(pred(flat.filter(pred)[i]));
        let (a, k) = choose|a: int, k: int|
            0 <= a < all.len() && 0 <= k < all[a].len() && #[trigger] all[a][k] == ip;
        assert(adapters[a]@[k] == ip);
    }
    if is_plausible_resolver(ip) && exists|a: int, k: int|
        0 <= a < adapters.len() && 0 <= k < adapters[a]@.len() && #[trigger] adapters[a]@[k] == ip {
        let (a, k) = choose|a: int, k: int|
            0 <= a < adapters.len() && 0 <= k < adapters[a]@.len() && #[trigger] adapters[a]@[k]
                == ip;
        assert(all[a][k] == ip);
        let i = choose|i: int| 0 <= i < flat.len() && flat[i] == ip;
        flat.lemma_filter_contains(pred, i);
    }
}

/// No IPv6 address in `fec0::/16` is ever a system resolver, and every other
/// DNS server that an adapter reports (IPv4, or IPv6 outside `fec0::/16`) is one.
pub proof fn lemma_system_resolvers_by_family(adapters: Seq<Vec<IpAddr>>, a: int, k: int)
    requires
        0 <= a < adapters.len(),
        0 <= k < adapters[a]@.len(),
    ensures
        adapters[a]@[k] is V4 ==> spec_system_resolvers(adapters).contains(adapters[a]@[k]),
        adapters[a]@[k] matches IpAddr::V6(octets) && !(octets@[0] == 0xfe && octets@[1] == 0xc0)
            ==> spec_system_resolvers(adapters).contains(adapters[a]@[k]),
        forall|octets: [u8; 16]|
            octets@[0] == 0xfe && octets@[1] == 0xc0 ==> !#[trigger] spec_system_resolvers(
                adapters,
            ).contains(IpAddr::V6(octets)),
{
    lemma_system_resolvers_membership(adapters, adapters[a]@[k]);
    assert forall|octets: [u8; 16]|
        octets@[0] == 0xfe && octets@[1] == 0xc0 implies !#[trigger] spec_system_resolvers(
        adapters,
    ).contains(IpAddr::V6(octets)) by {
        lemma_system_resolvers_membership(adapters, IpAddr::V6(octets));
    }
}

/// Exactly the IPv6 addresses whose first two octets are `fe c0` are
/// implausible resolvers; every IPv4 address and every other IPv6 address is
/// plausible, whatever its remaining octets.
pub proof fn lemma_plausible_unless_site_local(ip: IpAddr)
    ensures
        is_plausible_resolver(ip) <==> !(ip matches IpAddr::V6(octets) && octets@[0] == 0xfe
            && octets@[1] == 0xc0),
{
}

/// The system resolvers, element by element, without the plausibility
/// predicate: an address is one exactly when some adapter reports it and it is
/// not an IPv6 address whose first two octets are `fe c0`.
pub proof fn lemma_system_resolvers_are_reported_non_site_local(
    adapters: Seq<Vec<IpAddr>>,
    ip: IpAddr,
)
    ensures
        spec_system_resolvers(adapters).contains(ip) <==> ((exists|a: int, k: int|
            0 <= a < adapters.len() && 0 <= k < adapters[a]@.len() && #[trigger] adapters[a]@[k]
                == ip) && !(ip matches IpAddr::V6(octets) && octets@[0] == 0xfe && octets@[1]
            == 0xc0)),
{
    lemma_system_resolvers_membership(adapters, ip);
    lemma_plausible_unless_site_local(ip);
}

} // verus!
