//! Which addresses a discovery sweep visits.
//!
//! Brother machines do not announce themselves, so their discovery probes
//! every host of each private /24 network this computer is on.
//! EmberConnect dongles announce themselves over mDNS; the announced IPv4
//! addresses are probed in address order, each once.
use crate::machine::net::{addr_less, addr_lt, spec_is_local_network_ip, NetAddr};
use vstd::prelude::*;

verus! {

/// Strictly increasing in address order (so also free of repeats).
pub open spec fn sorted_unique(s: Seq<NetAddr>) -> bool {
    forall|i: int, j: int| 0 <= i < j < s.len() ==> addr_lt(#[trigger] s[i], #[trigger] s[j])
}

/// Address order is a strict total order.
pub proof fn lemma_addr_order(a: NetAddr, b: NetAddr, c: NetAddr)
    ensures
        !addr_lt(a, a),
        addr_lt(a, b) && addr_lt(b, c) ==> addr_lt(a, c),
        a != b ==> addr_lt(a, b) || addr_lt(b, a),
        addr_lt(a, b) ==> !addr_lt(b, a),
{
}

/// Insert `a` into a strictly sorted vector, unless already present.
pub fn insert_sorted_unique(v: &mut Vec<NetAddr>, a: NetAddr)
    requires
        sorted_unique(old(v)@),
    ensures
        sorted_unique(final(v)@),
        final(v)@.to_set() == old(v)@.to_set().insert(a),
{
    let mut p: usize = 0;
    while p < v.len() && addr_less(v[p], a)
        invariant
            p <= v.len(),
            forall|j: int| 0 <= j < p ==> addr_lt(#[trigger] v@[j], a),
        decreases v.len() - p,
    {
        p += 1;
    }
    if p < v.len() && v[p] == a {
        assert(v@.to_set().insert(a) =~= v@.to_set()) by {
            assert(v@.contains(a));
        }
        return;
    }
    proof {
        if p < v.len() {
            lemma_addr_order(v@[p as int], a, a);
            assert(addr_lt(a, v@[p as int]));
        }
    }
    let ghost before = v@;
    v.insert(p, a);
    proof {
        let s = v@;
        assert forall|i: int, j: int| 0 <= i < j < s.len() implies addr_lt(
            #[trigger] s[i],
            #[trigger] s[j],
        ) by {
            if i < p && j < p {
                assert(s[i] == before[i] && s[j] == before[j]);
            } else if i < p && j == p {
                assert(s[i] == before[i]);
            } else if i < p && j > p {
                assert(s[i] == before[i] && s[j] == before[j - 1]);
                assert(addr_lt(a, before[p as int]));
                if j - 1 > p {
                    assert(addr_lt(before[p as int], before[j - 1]));
                    lemma_addr_order(a, before[p as int], before[j - 1]);
                }
                lemma_addr_order(before[i], a, before[j - 1]);
            } else if i == p {
                assert(s[j] == before[j - 1]);
                if j - 1 > p {
                    assert(addr_lt(before[p as int], before[j - 1]));
                    lemma_addr_order(a, before[p as int], before[j - 1]);
                }
            } else {
                assert(s[i] == before[i - 1] && s[j] == before[j - 1]);
            }
        }
        assert(s.to_set() =~= before.to_set().insert(a)) by {
            assert forall|x: NetAddr| s.to_set().contains(x) <==> before.to_set().insert(a).contains(
                x,
            ) by {
                if s.contains(x) {
                    let k = choose|k: int| 0 <= k < s.len() && s[k] == x;
                    if k < p {
                        assert(before[k] == x);
                    } else if k > p {
                        assert(before[k - 1] == x);
                    }
                }
                if before.contains(x) {
                    let k = choose|k: int| 0 <= k < before.len() && before[k] == x;
                    if k < p {
                        assert(s[k] == x);
                    } else {
                        assert(s[k + 1] == x);
                    }
                }
                if x == a {
                    assert(s[p as int] == a);
                }
            }
        }
    }
}

/// An IPv4 address.
pub open spec fn is_v4(a: NetAddr) -> bool {
    a is V4
}

/// The mDNS-announced addresses worth probing: the IPv4 ones, in address
/// order, each once.
pub fn dongle_candidates(found: &Vec<NetAddr>) -> (r: Vec<NetAddr>)
    ensures
        sorted_unique(r@),
        forall|a: NetAddr| #[trigger] r@.contains(a) <==> (found@.contains(a) && is_v4(a)),
{
    let mut out: Vec<NetAddr> = Vec::new();
    let mut i: usize = 0;
    while i < found.len()
        invariant
            i <= found.len(),
            sorted_unique(out@),
            forall|a: NetAddr| #[trigger]
                out@.contains(a) <==> (found@.subrange(0, i as int).contains(a) && is_v4(a)),
        decreases found.len() - i,
    {
        let a = found[i];
        let ghost before = out@;
        if let NetAddr::V4(..) = a {
            insert_sorted_unique(&mut out, a);
        }
        proof {
            assert forall|x: NetAddr| #[trigger]
                out@.contains(x) <==> (found@.subrange(0, i + 1).contains(x) && is_v4(x)) by {
                assert(out@.to_set().contains(x) == out@.contains(x));
                assert(before.to_set().contains(x) == before.contains(x));
                let pre = found@.subrange(0, i as int);
                let post = found@.subrange(0, i + 1);
                if post.contains(x) {
                    let k = choose|k: int| 0 <= k < post.len() && post[k] == x;
                    if k < i {
                        assert(pre[k] == x);
                    }
                }
                if pre.contains(x) {
                    let k = choose|k: int| 0 <= k < pre.len() && pre[k] == x;
                    assert(post[k] == x);
                }
                assert(post[i as int] == a);
            }
        }
        i += 1;
    }
    assert(found@.subrange(0, found.len() as int) =~= found@);
    out
}

/// The /24 network (as its `.0` address) of a private IPv4 interface
/// address; `None` for loopback, public or IPv6 addresses.
pub open spec fn sweep_network(is_loopback: bool, a: NetAddr) -> Option<NetAddr> {
    if is_loopback {
        None
    } else {
        match a {
            NetAddr::V4(x, y, z, _) => if x == 10 || (x == 172 && 16 <= y <= 31) || (x == 192 && y
                == 168) {
                Some(NetAddr::V4(x, y, z, 0))
            } else {
                None
            },
            NetAddr::V6(_) => None,
        }
    }
}

/// Every private network this computer is on gets swept: a non-loopback
/// interface address in 10.0.0.0/8, 172.16.0.0/12 or 192.168.0.0/16 yields
/// its own /24 network. Whatever is swept is the /24 of the interface's
/// address; loopback interfaces and IPv6 addresses yield nothing.
pub proof fn law_private_interfaces_are_swept(
    is_loopback: bool,
    b: u8,
    c: u8,
    d: u8,
    a: NetAddr,
)
    ensures
        sweep_network(false, NetAddr::V4(10, b, c, d)) == Some(NetAddr::V4(10, b, c, 0)),
        16 <= b <= 31 ==> sweep_network(false, NetAddr::V4(172, b, c, d)) == Some(
            NetAddr::V4(172, b, c, 0),
        ),
        sweep_network(false, NetAddr::V4(192, 168, c, d)) == Some(NetAddr::V4(192, 168, c, 0)),
        sweep_network(true, a) is None,
        a is V6 ==> sweep_network(is_loopback, a) is None,
        sweep_network(is_loopback, a) matches Some(n) ==> (a matches NetAddr::V4(x, y, z, _)
            && n == NetAddr::V4(x, y, z, 0) && !is_loopback),
        sweep_network(is_loopback, a) matches Some(n) ==> spec_is_local_network_ip(n),
{
}

/// Candidate networks are exactly the swept networks of the interfaces:
/// an interface on a private network puts that network in the list.
pub proof fn law_private_interface_is_a_candidate(
    interfaces: Seq<(bool, NetAddr)>,
    r: Seq<NetAddr>,
    k: int,
)
    requires
        forall|n: NetAddr| #[trigger]
            r.contains(n) <==> exists|j: int|
                0 <= j < interfaces.len() && sweep_network(interfaces[j].0, interfaces[j].1)
                    == Some(n),
        0 <= k < interfaces.len(),
        !interfaces[k].0,
        interfaces[k].1 matches NetAddr::V4(x, y, _, _) && (x == 10 || (x == 172 && 16 <= y <= 31)
            || (x == 192 && y == 168)),
    ensures
        interfaces[k].1 matches NetAddr::V4(x, y, z, _) && r.contains(NetAddr::V4(x, y, z, 0)),
{
    if let NetAddr::V4(x, y, z, _) = interfaces[k].1 {
        assert(sweep_network(interfaces[k].0, interfaces[k].1) == Some(NetAddr::V4(x, y, z, 0)));
        assert(r.contains(NetAddr::V4(x, y, z, 0)));
    }
}

/// The /24 networks to sweep, from this computer's interfaces
/// (`(is_loopback, address)` pairs): each private IPv4 network once, in
/// address order.
pub fn candidate_networks(interfaces: &Vec<(bool, NetAddr)>) -> (r: Vec<NetAddr>)
    ensures
        sorted_unique(r@),
        forall|n: NetAddr| #[trigger]
            r@.contains(n) <==> exists|k: int|
                0 <= k < interfaces@.len() && sweep_network(interfaces@[k].0, interfaces@[k].1)
                    == Some(n),
{
    let mut out: Vec<NetAddr> = Vec::new();
    let mut i: usize = 0;
    while i < interfaces.len()
        invariant
            i <= interfaces.len(),
            sorted_unique(out@),
            forall|n: NetAddr| #[trigger]
                out@.contains(n) <==> exists|k: int|
                    0 <= k < i && sweep_network(interfaces@[k].0, interfaces@[k].1) == Some(n),
        decreases interfaces.len() - i,
    {
        let (lo, a) = interfaces[i];
        let ghost before = out@;
        let net: Option<NetAddr> = if lo {
            None
        } else {
            match a {
                NetAddr::V4(x, y, z, _) => if x == 10 || (x == 172 && 16 <= y && y <= 31) || (x
                    == 192 && y == 168) {
                    Some(NetAddr::V4(x, y, z, 0))
                } else {
                    None
                },
                NetAddr::V6(_) => None,
            }
        };
        assert(net == sweep_network(interfaces@[i as int].0, interfaces@[i as int].1));
        if let Some(n) = net {
            insert_sorted_unique(&mut out, n);
        }
        proof {
            assert forall|n: NetAddr| #[trigger]
                out@.contains(n) <==> exists|k: int|
                    0 <= k < i + 1 && sweep_network(interfaces@[k].0, interfaces@[k].1) == Some(
                        n,
                    ) by {
                assert(out@.to_set().contains(n) == out@.contains(n));
                assert(before.to_set().contains(n) == before.contains(n));
                if net == Some(n) {
                    assert(sweep_network(interfaces@[i as int].0, interfaces@[i as int].1) == Some(
                        n,
                    ));
                }
                if exists|k: int|
                    0 <= k < i + 1 && sweep_network(interfaces@[k].0, interfaces@[k].1) == Some(
                        n,
                    ) {
                    let k = choose|k: int|
                        0 <= k < i + 1 && sweep_network(interfaces@[k].0, interfaces@[k].1)
                            == Some(n);
                    if k < i {
                        assert(before.contains(n));
                    }
                }
            }
        }
        i += 1;
    }
    out
}

/// The hosts a sweep probes: `.1` to `.254` of each network, network by
/// network.
pub open spec fn spec_sweep(networks: Seq<NetAddr>) -> Seq<NetAddr>
    decreases networks.len(),
{
    if networks.len() == 0 {
        seq![]
    } else {
        spec_sweep(networks.drop_last()) + match networks.last() {
            NetAddr::V4(a, b, c, _) => Seq::new(254, |h: int| NetAddr::V4(a, b, c, (h + 1) as u8)),
            NetAddr::V6(_) => seq![],
        }
    }
}

/// Every host address of the given /24 networks (IPv6 entries contribute
/// nothing).
pub fn sweep_addresses(networks: &Vec<NetAddr>) -> (r: Vec<NetAddr>)
    ensures
        r@ == spec_sweep(networks@),
{
    let mut out: Vec<NetAddr> = Vec::new();
    let mut i: usize = 0;
    while i < networks.len()
        invariant
            i <= networks.len(),
            out@ == spec_sweep(networks@.subrange(0, i as int)),
        decreases networks.len() - i,
    {
        let ghost before = out@;
        proof {
            assert(networks@.subrange(0, i + 1).drop_last() =~= networks@.subrange(0, i as int));
        }
        match networks[i] {
            NetAddr::V4(a, b, c, _) => {
                let mut h: u8 = 1;
                while h <= 254
                    invariant
                        1 <= h <= 255,
                        out@ == before + Seq::new(
                            (h - 1) as nat,
                            |k: int| NetAddr::V4(a, b, c, (k + 1) as u8),
                        ),
                    decreases 255 - h,
                {
                    out.push(NetAddr::V4(a, b, c, h));
                    assert(out@ =~= before + Seq::new(
                        h as nat,
                        |k: int| NetAddr::V4(a, b, c, (k + 1) as u8),
                    ));
                    h += 1;
                }
            },
            NetAddr::V6(_) => {
                assert(out@ =~= before + Seq::<NetAddr>::empty());
            },
        }
        i += 1;
    }
    assert(networks@.subrange(0, networks.len() as int) =~= networks@);
    out
}

} // verus!
