//! The mempool watcher's decisions: which pending entries are competitors,
//! and how strong the strongest of them is.
use vstd::prelude::*;

verus! {

/// The kind of call a pending entry makes.
#[derive(Clone, Copy, Debug, PartialEq, Eq, Structural)]
pub enum CallKind {
    BurnedRegister,
    Other,
}

/// An entry of the pending pool.
#[derive(Clone, Debug)]
pub struct PendingEntry {
    pub sender: Vec<u8>,
    pub subnet: u16,
    pub call: CallKind,
    pub tip: u128,
}

/// A pending registration on the same subnet from another sender.
#[derive(Clone, Debug)]
pub struct CompetitorObservation {
    pub sender: Vec<u8>,
    pub tip: u128,
    pub first_seen_ms: u64,
}

/// The entry registers on `subnet` and comes from someone other than `local`.
pub open spec fn is_competitor(e: PendingEntry, subnet: u16, local: Seq<u8>) -> bool {
    e.subnet == subnet && e.call == CallKind::BurnedRegister && e.sender@ != local
}

/// The observations drawn from `entries` at `now_ms`, as (sender, tip, time),
/// in pool order.
pub open spec fn competitors(
    entries: Seq<PendingEntry>,
    subnet: u16,
    local: Seq<u8>,
    now_ms: u64,
) -> Seq<(Seq<u8>, u128, u64)>
    decreases entries.len(),
{
    if entries.len() == 0 {
        Seq::empty()
    } else {
        let rest = competitors(entries.drop_last(), subnet, local, now_ms);
        let e = entries.last();
        if is_competitor(e, subnet, local) {
            rest.push((e.sender@, e.tip, now_ms))
        } else {
            rest
        }
    }
}

pub open spec fn observation_view(o: CompetitorObservation) -> (Seq<u8>, u128, u64) {
    (o.sender@, o.tip, o.first_seen_ms)
}

fn same_bytes(a: &Vec<u8>, b: &Vec<u8>) -> (r: bool)
    ensures
        r == (a@ == b@),
{
    if a.len() != b.len() {
        return false;
    }
    let mut i: usize = 0;
    while i < a.len()
        invariant
            a@.len() == b@.len(),
            i <= a@.len(),
            forall|k: int| 0 <= k < i ==> a@[k] == b@[k],
        decreases a@.len() - i,
    {
        if a[i] != b[i] {
            return false;
        }
        i = i + 1;
    }
    assert(a@ =~= b@);
    true
}

fn copy_bytes(a: &Vec<u8>) -> (r: Vec<u8>)
    ensures
        r@ == a@,
{
    let mut r: Vec<u8> = Vec::new();
    let mut i: usize = 0;
    while i < a.len()
        invariant
            i <= a@.len(),
            r@ == a@.subrange(0, i as int),
        decreases a@.len() - i,
    {
        r.push(a[i]);
        i = i + 1;
        assert(r@ =~= a@.subrange(0, i as int));
    }
    assert(r@ =~= a@);
    r
}

/// The competitors in one poll of the pending pool: the entries that register
/// on `subnet` and whose sender is not `local`, in pool order, seen at `now_ms`.
pub fn observe(entries: &Vec<PendingEntry>, subnet: u16, local: &Vec<u8>, now_ms: u64) -> (r: Vec<
    CompetitorObservation,
>)
    ensures
        r@.map_values(|o: CompetitorObservation| observation_view(o)) == competitors(
            entries@,
            subnet,
            local@,
            now_ms,
        ),
{
    let mut r: Vec<CompetitorObservation> = Vec::new();
    let mut i: usize = 0;
    while i < entries.len()
        invariant
            i <= entries@.len(),
            r@.map_values(|o: CompetitorObservation| observation_view(o)) == competitors(
                entries@.subrange(0, i as int),
                subnet,
                local@,
                now_ms,
            ),
        decreases entries@.len() - i,
    {
        let e = &entries[i];
        assert(entries@.subrange(0, i + 1).drop_last() =~= entries@.subrange(0, i as int));
        if e.subnet == subnet && e.call == CallKind::BurnedRegister && !same_bytes(&e.sender, local) {
            let o = CompetitorObservation { sender: copy_bytes(&e.sender), tip: e.tip, first_seen_ms: now_ms };
            r.push(o);
            assert(r@.map_values(|o: CompetitorObservation| observation_view(o)) =~= competitors(
                entries@.subrange(0, i + 1),
                subnet,
                local@,
                now_ms,
            ));
        }
        i = i + 1;
    }
    assert(entries@.subrange(0, entries@.len() as int) =~= entries@);
    r
}

/// The highest tip among `obs`, if there is any observation.
pub fn strongest_tip(obs: &Vec<CompetitorObservation>) -> (r: Option<u128>)
    ensures
        obs@.len() == 0 <==> r is None,
        r matches Some(t) ==> (exists|i: int| 0 <= i < obs@.len() && obs@[i].tip == t) && (forall|
            i: int,
        |
            0 <= i < obs@.len() ==> obs@[i].tip <= t),
{
    if obs.len() == 0 {
        return None;
    }
    let mut best: u128 = obs[0].tip;
    let mut at: usize = 0;
    let mut i: usize = 1;
    while i < obs.len()
        invariant
            1 <= i <= obs@.len(),
            at < i,
            obs@[at as int].tip == best,
            forall|k: int| 0 <= k < i ==> obs@[k].tip <= best,
        decreases obs@.len() - i,
    {
        if obs[i].tip > best {
            best = obs[i].tip;
            at = i;
        }
        i = i + 1;
    }
    Some(best)
}

} // verus!
