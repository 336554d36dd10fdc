//! Scan results and the order in which they are listed.

use vstd::prelude::*;

verus! {

/// One device seen in a scan.
#[derive(Debug, Clone, PartialEq, Eq)]
pub struct DeviceInfo {
    /// The identifier by which the device is connected to.
    pub addr: String,
    /// The advertised name, if the device sent one.
    pub name: Option<String>,
    /// The signal strength in dBm, if one was measured.
    pub rssi: Option<i16>,
}

/// What a [`DeviceInfo`] holds, as plain values.
pub struct DeviceInfoView {
    pub addr: Seq<char>,
    pub name: Option<Seq<char>>,
    pub rssi: Option<i16>,
}

impl View for DeviceInfo {
    type V = DeviceInfoView;

    open spec fn view(&self) -> DeviceInfoView {
        DeviceInfoView {
            addr: self.addr@,
            name: match self.name {
                Some(n) => Some(n@),
                None => None,
            },
            rssi: self.rssi,
        }
    }
}

/// What a device said of itself in its advertisements.
#[derive(Debug, Clone, PartialEq, Eq)]
pub struct Advertised {
    pub local_name: Option<String>,
    pub rssi: Option<i16>,
}

/// What an [`Advertised`] holds, as plain values.
pub struct AdvertisedView {
    pub local_name: Option<Seq<char>>,
    pub rssi: Option<i16>,
}

impl View for Advertised {
    type V = AdvertisedView;

    open spec fn view(&self) -> AdvertisedView {
        AdvertisedView {
            local_name: match self.local_name {
                Some(n) => Some(n@),
                None => None,
            },
            rssi: self.rssi,
        }
    }
}

/// The record of a device with the address `addr`: name and signal strength
/// are what it advertised, and are missing where nothing is known of its
/// advertisements.
pub open spec fn seen(addr: Seq<char>, advertised: Option<AdvertisedView>) -> DeviceInfoView {
    match advertised {
        Some(a) => DeviceInfoView { addr, name: a.local_name, rssi: a.rssi },
        None => DeviceInfoView { addr, name: None, rssi: None },
    }
}

/// The views of a list of devices, in the same order.
pub open spec fn device_views(devices: Seq<DeviceInfo>) -> Seq<DeviceInfoView> {
    Seq::new(devices.len(), |i: int| devices[i]@)
}

/// The signal strength by which a device is ranked: a device without a
/// measurement counts as the weakest there can be.
pub open spec fn signal(d: DeviceInfoView) -> int {
    match d.rssi {
        Some(v) => v as int,
        None => i16::MIN as int,
    }
}

/// Whether `a` is listed before `b` on its merits: a named device before an
/// unnamed one, and of two that are both named or both unnamed the one with
/// the stronger signal.
pub open spec fn outranks(a: DeviceInfoView, b: DeviceInfoView) -> bool {
    ||| a.name is Some && b.name is None
    ||| (a.name is Some) == (b.name is Some) && signal(a) > signal(b)
}

/// Whether a list is in listing order: no device outranks one before it.
pub open spec fn ranked(devices: Seq<DeviceInfoView>) -> bool {
    forall|k: int, l: int| 0 <= k < l < devices.len() ==> !outranks(devices[l], devices[k])
}

/// Whether the device at position `i` is listed before the one at position
/// `j`: it outranks it, or the two rank equal and it was found first.
pub open spec fn listed_before(devices: Seq<DeviceInfoView>, i: int, j: int) -> bool {
    ||| outranks(devices[i], devices[j])
    ||| !outranks(devices[j], devices[i]) && i < j
}

/// Whether position `i` is among the entries of `order`.
pub open spec fn occurs(order: Seq<usize>, i: int) -> bool {
    exists|k: int| 0 <= k < order.len() && #[trigger] order[k] == i
}

/// Whether `order` lists the positions of the first `n` of `devices` in
/// listing order: every position once, no device before one that outranks it,
/// and devices of equal rank in the order in which they were found.
pub open spec fn is_listing_of_first(
    devices: Seq<DeviceInfoView>,
    order: Seq<usize>,
    n: int,
) -> bool {
    &&& order.len() == n
    &&& forall|k: int| 0 <= k < order.len() ==> (#[trigger] order[k]) < n
    &&& forall|k: int, l: int| 0 <= k < l < order.len() ==> order[k] != order[l]
    &&& forall|i: int| 0 <= i < n ==> occurs(order, i)
    &&& forall|k: int, l: int|
        0 <= k < l < order.len() ==> !outranks(
            devices[order[l] as int],
            devices[order[k] as int],
        )
    &&& forall|k: int, l: int|
        0 <= k < l < order.len() && !outranks(devices[order[k] as int], devices[order[l] as int])
            ==> order[k] < order[l]
}

/// Whether `order` lists the positions of `devices` in listing order.
pub open spec fn is_listing_order(devices: Seq<DeviceInfoView>, order: Seq<usize>) -> bool {
    is_listing_of_first(devices, order, devices.len() as int)
}

/// The listing order of `devices`. There is exactly one, see
/// [`lemma_listing_order_unique`].
pub open spec fn listing_order(devices: Seq<DeviceInfoView>) -> Seq<usize> {
    choose|order: Seq<usize>| is_listing_order(devices, order)
}

/// The devices picked from `devices` by `order`, one for each entry.
pub open spec fn arranged(devices: Seq<DeviceInfoView>, order: Seq<usize>) -> Seq<DeviceInfoView> {
    Seq::new(order.len(), |k: int| devices[order[k] as int])
}

/// The devices in listing order.
pub open spec fn listing(devices: Seq<DeviceInfoView>) -> Seq<DeviceInfoView> {
    arranged(devices, listing_order(devices))
}

impl DeviceInfo {
    /// The record of a device with the address `addr` and what is known of
    /// its advertisements.
    pub fn seen(addr: String, advertised: Option<Advertised>) -> (r: DeviceInfo)
        ensures
            r@ == seen(
                addr@,
                match advertised {
                    Some(a) => Some(a@),
                    None => None,
                },
            ),
    {
        match advertised {
            Some(a) => DeviceInfo { addr, name: a.local_name, rssi: a.rssi },
            None => DeviceInfo { addr, name: None, rssi: None },
        }
    }

    /// A copy with the same address, name and signal strength.
    pub fn duplicate(&self) -> (r: DeviceInfo)
        ensures
            r@ == self@,
    {
        let name = match &self.name {
            Some(n) => Some(n.clone()),
            None => None,
        };
        DeviceInfo { addr: self.addr.clone(), name, rssi: self.rssi }
    }

    /// The signal strength by which the device is ranked.
    pub fn signal_strength(&self) -> (r: i16)
        ensures
            r == signal(self@),
    {
        match self.rssi {
            Some(v) => v,
            None => i16::MIN,
        }
    }

    /// Whether this device is listed before `other` on its merits.
    pub fn outranks(&self, other: &DeviceInfo) -> (r: bool)
        ensures
            r == outranks(self@, other@),
    {
        let named = self.name.is_some();
        let other_named = other.name.is_some();
        if named != other_named {
            named
        } else {
            self.signal_strength() > other.signal_strength()
        }
    }
}

/// The positions of `devices` in listing order: named devices first, then the
/// stronger signal first, and devices of equal rank as they were found.
pub fn scan_order(devices: &Vec<DeviceInfo>) -> (order: Vec<usize>)
    ensures
        is_listing_order(device_views(devices@), order@),
        order@ == listing_order(device_views(devices@)),
{
    let ghost devs = device_views(devices@);
    let mut order: Vec<usize> = Vec::new();
    let mut i: usize = 0;
    while i < devices.len()
        invariant
            i <= devices.len(),
            devs == device_views(devices@),
            is_listing_of_first(devs, order@, i as int),
        decreases devices.len() - i,
    {
        // The device at `i` was found last, so it goes behind every device
        // that it does not outrank.
        let mut p: usize = order.len();
        while p > 0 && devices[i].outranks(&devices[order[p - 1]])
            invariant
                p <= order.len(),
                i < devices.len(),
                devs == device_views(devices@),
                is_listing_of_first(devs, order@, i as int),
                forall|k: int|
                    p <= k < order.len() ==> outranks(
                        devs[i as int],
                        devs[(#[trigger] order[k]) as int],
                    ),
            decreases p,
        {
            p = p - 1;
        }
        proof {
            lemma_insert_keeps_listing(devs, order@, i as int, p as int);
        }
        order.insert(p, i);
        i = i + 1;
    }
    proof {
        lemma_listing_order_unique(devs, order@);
    }
    order
}

/// Copies of the devices at the positions that `order` names, in that order.
fn arrange(devices: &Vec<DeviceInfo>, order: &Vec<usize>) -> (picked: Vec<DeviceInfo>)
    requires
        forall|k: int| 0 <= k < order.len() ==> (#[trigger] order[k]) < devices.len(),
    ensures
        device_views(picked@) == arranged(device_views(devices@), order@),
{
    let mut picked: Vec<DeviceInfo> = Vec::new();
    let mut k: usize = 0;
    while k < order.len()
        invariant
            k <= order.len(),
            picked.len() == k,
            forall|j: int| 0 <= j < order.len() ==> (#[trigger] order[j]) < devices.len(),
            forall|j: int| 0 <= j < k ==> (#[trigger] picked[j])@ == devices[order[j] as int]@,
        decreases order.len() - k,
    {
        picked.push(devices[order[k]].duplicate());
        k = k + 1;
    }
    assert(device_views(picked@) =~= arranged(device_views(devices@), order@));
    picked
}

/// The devices in listing order.
pub fn sort_devices(devices: &Vec<DeviceInfo>) -> (sorted: Vec<DeviceInfo>)
    ensures
        device_views(sorted@) == listing(device_views(devices@)),
        is_listing_order(device_views(devices@), listing_order(device_views(devices@))),
        sorted.len() == devices.len(),
        ranked(device_views(sorted@)),
{
    let order = scan_order(devices);
    let sorted = arrange(devices, &order);
    proof {
        lemma_listing_is_ranked(device_views(devices@), order@);
    }
    sorted
}

/// A list of devices has one listing order only.
pub proof fn lemma_listing_order_unique(devices: Seq<DeviceInfoView>, order: Seq<usize>)
    requires
        is_listing_order(devices, order),
    ensures
        order == listing_order(devices),
        is_listing_order(devices, listing_order(devices)),
{
    let other = listing_order(devices);
    assert(is_listing_order(devices, other));
    assert forall|k: int| 0 <= k < order.len() implies occurs(
        other,
        (#[trigger] order[k]) as int,
    ) by {
        assert(order[k] < devices.len());
    }
    assert forall|k: int| 0 <= k < other.len() implies occurs(
        order,
        (#[trigger] other[k]) as int,
    ) by {
        assert(other[k] < devices.len());
    }
    lemma_same_entries_same_list(devices, order, other);
}

/// Every list of devices that a machine can hold has a listing order.
pub proof fn lemma_listing_order_exists(devices: Seq<DeviceInfoView>)
    requires
        devices.len() <= usize::MAX,
    ensures
        is_listing_order(devices, listing_order(devices)),
        ranked(listing(devices)),
        listing(devices).len() == devices.len(),
{
    let order = lemma_listing_of_first_exists(devices, devices.len() as int);
    assert(is_listing_order(devices, order));
    lemma_listing_is_ranked(devices, listing_order(devices));
}

/// A list arranged by its listing order is ranked, and as long as it was
/// before.
pub proof fn lemma_listing_is_ranked(devices: Seq<DeviceInfoView>, order: Seq<usize>)
    requires
        is_listing_order(devices, order),
    ensures
        ranked(arranged(devices, order)),
        arranged(devices, order).len() == devices.len(),
{
}

/// In a ranked list a named device never stands behind an unnamed one; among
/// the named, and among the unnamed, the signal never rises from one entry to
/// a later one; and a device without a measurement ranks as one that measured
/// the weakest signal there is.
pub proof fn lemma_ranked_named_then_strongest(devices: Seq<DeviceInfoView>, k: int, l: int)
    requires
        ranked(devices),
        0 <= k < l < devices.len(),
    ensures
        devices[l].name is Some ==> devices[k].name is Some,
        (devices[k].name is Some) == (devices[l].name is Some) ==> signal(devices[k]) >= signal(
            devices[l],
        ),
        devices[k].rssi is None ==> signal(devices[k]) == i16::MIN,
        signal(devices[l]) >= i16::MIN,
{
    assert(!outranks(devices[l], devices[k]));
}

/// Of a named device and an unnamed one the named one is listed first,
/// whichever was found first and whichever has the stronger signal.
pub proof fn lemma_named_listed_first(named: DeviceInfoView, unnamed: DeviceInfoView)
    requires
        named.name is Some,
        unnamed.name is None,
    ensures
        listing(seq![unnamed, named]) == seq![named, unnamed],
        listing(seq![named, unnamed]) == seq![named, unnamed],
{
    let swapped = seq![1usize, 0usize];
    assert(occurs(swapped, 0)) by {
        assert(swapped[1] == 0);
    }
    assert(occurs(swapped, 1)) by {
        assert(swapped[0] == 1);
    }
    lemma_listing_order_unique(seq![unnamed, named], swapped);
    assert(arranged(seq![unnamed, named], swapped) =~= seq![named, unnamed]);

    let kept = seq![0usize, 1usize];
    assert(occurs(kept, 0)) by {
        assert(kept[0] == 0);
    }
    assert(occurs(kept, 1)) by {
        assert(kept[1] == 1);
    }
    lemma_listing_order_unique(seq![named, unnamed], kept);
    assert(arranged(seq![named, unnamed], kept) =~= seq![named, unnamed]);
}

/// What stands at position `k` after `x` went in at `p`.
proof fn lemma_inserted_entry(before: Seq<usize>, p: int, x: usize, k: int)
    requires
        0 <= p <= before.len(),
        0 <= k <= before.len(),
    ensures
        before.insert(p, x)[k] == if k < p {
            before[k]
        } else if k == p {
            x
        } else {
            before[k - 1]
        },
{
}

/// The listing order of the first `n` devices, with position `n` put in at
/// `p`, is the listing order of the first `n + 1`, if the device at `n`
/// outranks all entries from `p` on and not the one before `p`.
proof fn lemma_insert_keeps_listing(
    devices: Seq<DeviceInfoView>,
    before: Seq<usize>,
    n: int,
    p: int,
)
    requires
        is_listing_of_first(devices, before, n),
        0 <= p <= n < usize::MAX,
        forall|k: int| p <= k < n ==> outranks(devices[n], devices[(#[trigger] before[k]) as int]),
        p > 0 ==> !outranks(devices[n], devices[before[p - 1] as int]),
    ensures
        is_listing_of_first(devices, before.insert(p, n as usize), n + 1),
{
    let i = n as usize;
    let after = before.insert(p, i);
    assert forall|j: int| 0 <= j < n + 1 implies occurs(after, j) by {
        if j == n {
            assert(after[p] == i);
        } else {
            assert(occurs(before, j));
            let k = choose|k: int| 0 <= k < before.len() && #[trigger] before[k] == j;
            if k < p {
                assert(after[k] == j);
            } else {
                assert(after[k + 1] == j);
            }
        }
    }
    assert forall|k: int| 0 <= k < after.len() implies (#[trigger] after[k]) < n + 1 by {
        if k < p {
            assert(after[k] == before[k]);
        } else if k > p {
            assert(after[k] == before[k - 1]);
        }
    }
    assert forall|k: int, l: int| 0 <= k < l < after.len() implies after[k] != after[l]
        && !outranks(devices[after[l] as int], devices[after[k] as int]) && (!outranks(
        devices[after[k] as int],
        devices[after[l] as int],
    ) ==> after[k] < after[l]) by {
        lemma_inserted_entry(before, p, i, k);
        lemma_inserted_entry(before, p, i, l);
        if l < p {
            assert(before[k] != before[l]);
        } else if l == p {
            // Nothing before the gap is outranked by the entry next to the
            // gap, which the new device does not outrank.
            let near = before[p - 1];
            let far = before[k];
            assert(far < n);
            if k < p - 1 {
                assert(!outranks(devices[near as int], devices[far as int]));
            }
            assert(!outranks(devices[n], devices[far as int]));
        } else if k < p {
            assert(before[k] != before[l - 1]);
        } else if k == p {
            assert(outranks(devices[n], devices[before[l - 1] as int]));
            assert(before[l - 1] < n);
        } else {
            assert(before[k - 1] != before[l - 1]);
        }
    }
}

/// Where position `n` goes into the listing order of the first `n` devices:
/// the search starts at `p` and moves towards the front.
spec fn gap(devices: Seq<DeviceInfoView>, before: Seq<usize>, n: int, p: int) -> int
    decreases p,
{
    if p > 0 && outranks(devices[n], devices[before[p - 1] as int]) {
        gap(devices, before, n, p - 1)
    } else {
        p
    }
}

/// What holds at the place that [`gap`] finds.
proof fn lemma_gap(devices: Seq<DeviceInfoView>, before: Seq<usize>, n: int, p: int)
    requires
        0 <= p <= before.len(),
        forall|k: int|
            p <= k < before.len() ==> outranks(
                devices[n],
                devices[(#[trigger] before[k]) as int],
            ),
    ensures
        ({
            let g = gap(devices, before, n, p);
            &&& 0 <= g <= p
            &&& forall|k: int|
                g <= k < before.len() ==> outranks(
                    devices[n],
                    devices[(#[trigger] before[k]) as int],
                )
            &&& g > 0 ==> !outranks(devices[n], devices[before[g - 1] as int])
        }),
    decreases p,
{
    if p > 0 && outranks(devices[n], devices[before[p - 1] as int]) {
        lemma_gap(devices, before, n, p - 1);
    }
}

/// The first `n` devices of a list have a listing order.
proof fn lemma_listing_of_first_exists(devices: Seq<DeviceInfoView>, n: int) -> (order: Seq<usize>)
    requires
        0 <= n <= devices.len(),
        n <= usize::MAX,
    ensures
        is_listing_of_first(devices, order, n),
    decreases n,
{
    if n == 0 {
        Seq::<usize>::empty()
    } else {
        let before = lemma_listing_of_first_exists(devices, n - 1);
        lemma_gap(devices, before, n - 1, n - 1);
        let g = gap(devices, before, n - 1, n - 1);
        lemma_insert_keeps_listing(devices, before, n - 1, g);
        before.insert(g, (n - 1) as usize)
    }
}

/// Two lists that hold the same positions, each with every entry listed
/// before the entries behind it, are the same list.
proof fn lemma_same_entries_same_list(
    devices: Seq<DeviceInfoView>,
    a: Seq<usize>,
    b: Seq<usize>,
)
    requires
        forall|k: int, l: int|
            0 <= k < l < a.len() ==> listed_before(devices, a[k] as int, a[l] as int),
        forall|k: int, l: int|
            0 <= k < l < b.len() ==> listed_before(devices, b[k] as int, b[l] as int),
        forall|k: int| 0 <= k < a.len() ==> occurs(b, (#[trigger] a[k]) as int),
        forall|k: int| 0 <= k < b.len() ==> occurs(a, (#[trigger] b[k]) as int),
    ensures
        a == b,
    decreases a.len(),
{
    if a.len() == 0 {
        if b.len() > 0 {
            assert(occurs(a, b[0] as int));
        }
        assert(a =~= b);
    } else {
        assert(occurs(b, a[0] as int));
        let at_b = choose|k: int| 0 <= k < b.len() && #[trigger] b[k] == a[0] as int;
        assert(occurs(a, b[0] as int));
        let at_a = choose|k: int| 0 <= k < a.len() && #[trigger] a[k] == b[0] as int;
        if at_b > 0 {
            assert(listed_before(devices, b[0] as int, b[at_b] as int));
            if at_a > 0 {
                assert(listed_before(devices, a[0] as int, a[at_a] as int));
            }
        }
        assert(a[0] == b[0]);
        let a_rest = a.drop_first();
        let b_rest = b.drop_first();
        assert forall|k: int| 0 <= k < a_rest.len() implies occurs(
            b_rest,
            (#[trigger] a_rest[k]) as int,
        ) by {
            assert(a_rest[k] == a[k + 1]);
            assert(listed_before(devices, a[0] as int, a[k + 1] as int));
            assert(occurs(b, a[k + 1] as int));
            let j = choose|j: int| 0 <= j < b.len() && #[trigger] b[j] == a[k + 1] as int;
            assert(j > 0);
            assert(b_rest[j - 1] == a_rest[k]);
        }
        assert forall|k: int| 0 <= k < b_rest.len() implies occurs(
            a_rest,
            (#[trigger] b_rest[k]) as int,
        ) by {
            assert(b_rest[k] == b[k + 1]);
            assert(listed_before(devices, b[0] as int, b[k + 1] as int));
            assert(occurs(a, b[k + 1] as int));
            let j = choose|j: int| 0 <= j < a.len() && #[trigger] a[j] == b[k + 1] as int;
            assert(j > 0);
            assert(a_rest[j - 1] == b_rest[k]);
        }
        assert forall|k: int, l: int| 0 <= k < l < a_rest.len() implies listed_before(
            devices,
            a_rest[k] as int,
            a_rest[l] as int,
        ) by {
            assert(listed_before(devices, a[k + 1] as int, a[l + 1] as int));
        }
        assert forall|k: int, l: int| 0 <= k < l < b_rest.len() implies listed_before(
            devices,
            b_rest[k] as int,
            b_rest[l] as int,
        ) by {
            assert(listed_before(devices, b[k + 1] as int, b[l + 1] as int));
        }
        lemma_same_entries_same_list(devices, a_rest, b_rest);
        assert(a =~= seq![a[0]] + a_rest);
        assert(b =~= seq![b[0]] + b_rest);
    }
}

} // verus!
