//! Device discovery bookkeeping: which devices are known, and what changed
//! between two scans of the machine's serial ports.
use vstd::prelude::*;
use crate::domain::{DeviceDescriptor, DeviceDetails, LinkKind};
use crate::events::CoreEvent;

verus! {

/// USB identification of a serial port, as the port scan reports it.
#[derive(Debug)]
pub struct UsbPortEntry {
    pub manufacturer: Option<String>,
    pub product: Option<String>,
    pub vid: u16,
    pub pid: u16,
}

/// A serial port found by a scan; `usb` is present for USB ports only.
#[derive(Debug)]
pub struct SerialPortEntry {
    pub port_name: String,
    pub usb: Option<UsbPortEntry>,
}

/// The identifier under which a serial port is known.
pub open spec fn serial_id(p: SerialPortEntry) -> Seq<char> {
    "serial:"@ + p.port_name@
}

/// `d` describes the serial port `p`.
pub open spec fn is_serial_descriptor_of(d: DeviceDescriptor, p: SerialPortEntry) -> bool {
    &&& d.id@ == serial_id(p)
    &&& d.label@ == p.port_name@
    &&& d.transport == LinkKind::Serial
    &&& d.details is Serial
    &&& d.details->path@ == p.port_name@
    &&& d.details->manufacturer == (match p.usb {
        Some(u) => u.manufacturer,
        None => None,
    })
    &&& d.details->product == (match p.usb {
        Some(u) => u.product,
        None => None,
    })
    &&& d.details->vid == (match p.usb {
        Some(u) => Some(u.vid),
        None => None,
    })
    &&& d.details->pid == (match p.usb {
        Some(u) => Some(u.pid),
        None => None,
    })
}

/// The identifier of the default UDP endpoint.
pub open spec fn default_udp_id() -> Seq<char> {
    "udp:14550"@
}

/// `d` is the default UDP endpoint, listening on all interfaces at port 14550.
pub open spec fn is_default_udp(d: DeviceDescriptor) -> bool {
    &&& d.id@ == default_udp_id()
    &&& d.label@ == "UDP 0.0.0.0:14550"@
    &&& d.transport == LinkKind::Udp
    &&& d.details is Udp
    &&& d.details->bind@ == "0.0.0.0:14550"@
    &&& d.details->target_host is None
    &&& d.details->target_port is None
}

/// The descriptor of a scanned serial port.
pub fn descriptor_from_serial(info: &SerialPortEntry) -> (d: DeviceDescriptor)
    ensures
        is_serial_descriptor_of(d, *info),
{
    let (manufacturer, product, vid, pid) = match &info.usb {
        Some(port) => (port.manufacturer.clone(), port.product.clone(), Some(port.vid), Some(port.pid)),
        None => (None, None, None, None),
    };
    let mut id = String::from_str("serial:");
    id.append(info.port_name.as_str());
    DeviceDescriptor {
        id,
        label: info.port_name.clone(),
        transport: LinkKind::Serial,
        details: DeviceDetails::Serial { path: info.port_name.clone(), manufacturer, product, vid, pid },
    }
}

/// The default UDP endpoint, always offered.
pub fn default_udp_descriptor() -> (d: DeviceDescriptor)
    ensures
        is_default_udp(d),
{
    DeviceDescriptor {
        id: String::from_str("udp:14550"),
        label: String::from_str("UDP 0.0.0.0:14550"),
        transport: LinkKind::Udp,
        details: DeviceDetails::Udp {
            bind: String::from_str("0.0.0.0:14550"),
            target_host: None,
            target_port: None,
        },
    }
}

/// Some entry of `s` has identifier `id`.
pub open spec fn has_id(s: Seq<DeviceDescriptor>, id: Seq<char>) -> bool {
    exists|i: int| 0 <= i < s.len() && (#[trigger] s[i]).id@ == id
}

/// No two entries of `s` share an identifier.
pub open spec fn unique_ids(s: Seq<DeviceDescriptor>) -> bool {
    forall|i: int, j: int|
        0 <= i < s.len() && 0 <= j < s.len() && (#[trigger] s[i]).id@ == (#[trigger] s[j]).id@
            ==> i == j
}

/// Port `j` is the last of `ports` known under `id`.
pub open spec fn is_last_port_with_id(ports: Seq<SerialPortEntry>, j: int, id: Seq<char>) -> bool {
    &&& 0 <= j < ports.len()
    &&& serial_id(ports[j]) == id
    &&& forall|k: int| j < k < ports.len() ==> serial_id(#[trigger] ports[k]) != id
}

/// `e` describes the last of `ports` that shares its identifier.
pub open spec fn describes_latest_port(e: DeviceDescriptor, ports: Seq<SerialPortEntry>) -> bool {
    exists|j: int| is_last_port_with_id(ports, j, e.id@) && is_serial_descriptor_of(e, #[trigger] ports[j])
}

/// `t` is the device table of a scan that found `ports`: one entry per
/// identifier, the default UDP endpoint, and for every scanned port the
/// descriptor of the last port scanned under its identifier.
pub open spec fn is_scan_table(t: Seq<DeviceDescriptor>, ports: Seq<SerialPortEntry>) -> bool {
    &&& unique_ids(t)
    &&& has_id(t, default_udp_id())
    &&& forall|i: int|
        0 <= i < t.len() ==> (is_default_udp(#[trigger] t[i]) || describes_latest_port(t[i], ports))
    &&& forall|j: int| 0 <= j < ports.len() ==> has_id(t, serial_id(#[trigger] ports[j]))
}

/// The entries of `s` whose identifier no entry of `other` has, in order.
pub open spec fn missing_from(s: Seq<DeviceDescriptor>, other: Seq<DeviceDescriptor>) -> Seq<
    DeviceDescriptor,
>
    decreases s.len(),
{
    if s.len() == 0 {
        Seq::empty()
    } else {
        let rest = missing_from(s.drop_last(), other);
        if has_id(other, s.last().id@) {
            rest
        } else {
            rest.push(s.last())
        }
    }
}

/// One `DeviceDiscovered` event per device, in order.
pub open spec fn discovered_events(s: Seq<DeviceDescriptor>) -> Seq<CoreEvent> {
    s.map_values(|d: DeviceDescriptor| CoreEvent::DeviceDiscovered { device: d })
}

/// One `DeviceLost` event per device, in order.
pub open spec fn lost_events(s: Seq<DeviceDescriptor>) -> Seq<CoreEvent> {
    s.map_values(|d: DeviceDescriptor| CoreEvent::DeviceLost { device: d })
}

/// The events of a refresh that replaced table `old` by table `cur`: a
/// discovery for each new identifier, then a loss for each vanished one.
pub open spec fn change_events(old: Seq<DeviceDescriptor>, cur: Seq<DeviceDescriptor>) -> Seq<CoreEvent> {
    discovered_events(missing_from(cur, old)) + lost_events(missing_from(old, cur))
}

/// A serial port is never known under the default UDP endpoint's identifier.
pub proof fn lemma_serial_id_not_udp(p: SerialPortEntry)
    ensures
        serial_id(p) != default_udp_id(),
{
    reveal_strlit("serial:");
    reveal_strlit("udp:14550");
    assert(default_udp_id()[0] == 'u');
}

proof fn lemma_missing_from_none(s: Seq<DeviceDescriptor>, other: Seq<DeviceDescriptor>)
    requires
        forall|i: int| 0 <= i < s.len() ==> has_id(other, (#[trigger] s[i]).id@),
    ensures
        missing_from(s, other) == Seq::<DeviceDescriptor>::empty(),
    decreases s.len(),
{
    if s.len() > 0 {
        lemma_missing_from_none(s.drop_last(), other);
    }
}

/// The position of the entry with identifier `id`, if any.
fn position_of_id(table: &Vec<DeviceDescriptor>, id: &String) -> (r: Option<usize>)
    ensures
        match r {
            Some(i) => i < table@.len() && table@[i as int].id@ == id@,
            None => !has_id(table@, id@),
        },
{
    let mut i: usize = 0;
    while i < table.len()
        invariant
            i <= table@.len(),
            forall|k: int| 0 <= k < i ==> table@[k].id@ != id@,
        decreases table.len() - i,
    {
        if table[i].id == *id {
            return Some(i);
        }
        i = i + 1;
    }
    None
}

/// Inserts `d`, replacing the entry with the same identifier if there is one.
fn upsert_device(table: &mut Vec<DeviceDescriptor>, d: DeviceDescriptor)
    requires
        unique_ids(old(table)@),
    ensures
        unique_ids(final(table)@),
        has_id(final(table)@, d.id@),
        forall|i: int|
            0 <= i < final(table)@.len() ==> (#[trigger] final(table)@[i] == d
                || (final(table)@[i].id@ != d.id@ && old(table)@.contains(final(table)@[i]))),
        forall|i: int|
            0 <= i < old(table)@.len() && (#[trigger] old(table)@[i]).id@ != d.id@
                ==> final(table)@.contains(old(table)@[i]),
{
    match position_of_id(table, &d.id) {
        Some(i) => {
            let ghost before = table@;
            table.set(i, d);
            assert forall|k: int| 0 <= k < table@.len() && k != i implies table@[k] == before[k]
                && before.contains(table@[k]) by {}
            assert(table@[i as int] == d);
            assert forall|k: int| 0 <= k < before.len() && (#[trigger] before[k]).id@ != d.id@
                implies table@.contains(before[k]) by {}
        },
        None => {
            let ghost before = table@;
            table.push(d);
            assert(table@[before.len() as int] == d);
            assert forall|k: int| 0 <= k < before.len() implies table@.contains(#[trigger] before[k]) by {
                assert(table@[k] == before[k]);
            }
            assert forall|k: int| 0 <= k < table@.len() - 1 implies before.contains(#[trigger] table@[k]) by {}
        },
    }
}

/// Whether some entry of `table` has identifier `id`.
fn contains_id(table: &Vec<DeviceDescriptor>, id: &String) -> (r: bool)
    ensures
        r == has_id(table@, id@),
{
    match position_of_id(table, id) {
        Some(_) => true,
        None => false,
    }
}

/// The devices known to the core, one per identifier.
pub struct DeviceRegistry {
    pub devices: Vec<DeviceDescriptor>,
}

impl DeviceRegistry {
    /// No two known devices share an identifier.
    pub open spec fn wf(&self) -> bool {
        unique_ids(self.devices@)
    }

    /// A registry that knows no device yet.
    pub fn new() -> (r: Self)
        ensures
            r.wf(),
            r.devices@.len() == 0,
    {
        DeviceRegistry { devices: Vec::new() }
    }

    /// The known devices, followed by the default UDP endpoint when no known
    /// device has its identifier.
    pub fn snapshot(&self) -> (r: Vec<DeviceDescriptor>)
        ensures
            has_id(self.devices@, default_udp_id()) ==> r@ == self.devices@,
            !has_id(self.devices@, default_udp_id()) ==> r@.len() == self.devices@.len() + 1
                && r@.drop_last() == self.devices@ && is_default_udp(r@.last()),
    {
        let mut devices = self.devices.clone();
        let udp = default_udp_descriptor();
        if !contains_id(&devices, &udp.id) {
            devices.push(udp);
        }
        devices
    }

    /// Replaces the known devices by those of a scan that found `ports` (plus
    /// the default UDP endpoint) and returns what a listener is told: a
    /// discovery for each device not known before, a loss for each device no
    /// longer present, then a snapshot of all known devices.
    pub fn refresh(&mut self, ports: &Vec<SerialPortEntry>) -> (events: Vec<CoreEvent>)
        requires
            old(self).wf(),
        ensures
            final(self).wf(),
            is_scan_table(final(self).devices@, ports@),
            events@.len() == change_events(old(self).devices@, final(self).devices@).len() + 1,
            events@.drop_last() == change_events(old(self).devices@, final(self).devices@),
            events@.last() is DiscoverySnapshot,
            events@.last()->devices@ == final(self).devices@,
    {
        let ghost ps = ports@;
        let mut current: Vec<DeviceDescriptor> = Vec::new();
        let mut j: usize = 0;
        while j < ports.len()
            invariant
                j <= ps.len(),
                ps == ports@,
                unique_ids(current@),
                forall|i: int|
                    0 <= i < current@.len() ==> describes_latest_port(#[trigger] current@[i], ps.take(j as int)),
                forall|k: int| 0 <= k < j ==> has_id(current@, serial_id(#[trigger] ps[k])),
            decreases ps.len() - j,
        {
            let d = descriptor_from_serial(&ports[j]);
            let ghost before = current@;
            let ghost pre = ps.take(j as int);
            let ghost post = ps.take(j + 1);
            upsert_device(&mut current, d);
            assert forall|i: int| 0 <= i < current@.len() implies describes_latest_port(
                #[trigger] current@[i],
                post,
            ) by {
                let e = current@[i];
                if e == d {
                    assert(is_serial_descriptor_of(e, post[j as int]));
                } else {
                    let jj = choose|jj: int|
                        is_last_port_with_id(pre, jj, e.id@) && is_serial_descriptor_of(
                            e,
                            #[trigger] pre[jj],
                        );
                    assert forall|k: int| jj < k < post.len() implies serial_id(#[trigger] post[k])
                        != e.id@ by {}
                }
            }
            assert forall|k: int| 0 <= k < j + 1 implies has_id(current@, serial_id(#[trigger] ps[k])) by {
                if k < j {
                    assert(has_id(before, serial_id(ps[k])));
                }
            }
            j = j + 1;
        }
        assert(ps.take(ps.len() as int) =~= ps);
        let ghost serial_table = current@;
        let udp = default_udp_descriptor();
        proof {
            assert forall|i: int| 0 <= i < serial_table.len() implies (#[trigger] serial_table[i]).id@
                != udp.id@ by {
                let e = serial_table[i];
                let jj = choose|jj: int|
                    is_last_port_with_id(ps, jj, e.id@) && is_serial_descriptor_of(e, #[trigger] ps[jj]);
                lemma_serial_id_not_udp(ps[jj]);
            }
        }
        upsert_device(&mut current, udp);
        proof {
            assert forall|i: int| 0 <= i < current@.len() implies (is_default_udp(#[trigger] current@[i])
                || describes_latest_port(current@[i], ps)) by {}
            assert forall|k: int| 0 <= k < ps.len() implies has_id(current@, serial_id(#[trigger] ps[k])) by {
                lemma_serial_id_not_udp(ps[k]);
            }
        }
        let ghost old_table = self.devices@;
        let ghost cur = current@;
        let mut events: Vec<CoreEvent> = Vec::new();
        let mut k: usize = 0;
        while k < current.len()
            invariant
                k <= cur.len(),
                cur == current@,
                old_table == self.devices@,
                events@ == discovered_events(missing_from(cur.take(k as int), old_table)),
            decreases cur.len() - k,
        {
            assert(cur.take(k + 1).drop_last() =~= cur.take(k as int));
            if !contains_id(&self.devices, &current[k].id) {
                events.push(CoreEvent::DeviceDiscovered { device: current[k].clone() });
            }
            k = k + 1;
        }
        assert(cur.take(cur.len() as int) =~= cur);
        let ghost found = events@;
        let mut m: usize = 0;
        while m < self.devices.len()
            invariant
                m <= old_table.len(),
                cur == current@,
                old_table == self.devices@,
                events@ == found + lost_events(missing_from(old_table.take(m as int), cur)),
            decreases old_table.len() - m,
        {
            assert(old_table.take(m + 1).drop_last() =~= old_table.take(m as int));
            if !contains_id(&current, &self.devices[m].id) {
                events.push(CoreEvent::DeviceLost { device: self.devices[m].clone() });
            }
            m = m + 1;
        }
        assert(old_table.take(old_table.len() as int) =~= old_table);
        self.devices = current;
        let snapshot = self.devices.clone();
        let ghost changes = events@;
        events.push(CoreEvent::DiscoverySnapshot { devices: snapshot });
        events
    }
}

/// Refreshing twice with the same scan reports no change the second time:
/// every device of one scan table of `ports` is in any other, so no
/// discovery and no loss is reported between them.
pub proof fn lemma_rescan_reports_no_change(
    t1: Seq<DeviceDescriptor>,
    t2: Seq<DeviceDescriptor>,
    ports: Seq<SerialPortEntry>,
)
    requires
        is_scan_table(t1, ports),
        is_scan_table(t2, ports),
    ensures
        change_events(t1, t2) == Seq::<CoreEvent>::empty(),
{
    lemma_scan_tables_share_ids(t1, t2, ports);
    lemma_scan_tables_share_ids(t2, t1, ports);
    lemma_missing_from_none(t2, t1);
    lemma_missing_from_none(t1, t2);
}

/// Every identifier of one scan table of `ports` is in any other.
pub proof fn lemma_scan_tables_share_ids(
    t1: Seq<DeviceDescriptor>,
    t2: Seq<DeviceDescriptor>,
    ports: Seq<SerialPortEntry>,
)
    requires
        is_scan_table(t1, ports),
        is_scan_table(t2, ports),
    ensures
        forall|i: int| 0 <= i < t1.len() ==> has_id(t2, (#[trigger] t1[i]).id@),
{
    assert forall|i: int| 0 <= i < t1.len() implies has_id(t2, (#[trigger] t1[i]).id@) by {
        let e = t1[i];
        if !is_default_udp(e) {
            let jj = choose|jj: int|
                is_last_port_with_id(ports, jj, e.id@) && is_serial_descriptor_of(e, #[trigger] ports[jj]);
        }
    }
}

} // verus!
