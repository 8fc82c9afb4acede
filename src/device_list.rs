//! Device enumeration: which devices of the transport's list match the
//! search criteria, and the references that a listing holds.
use vstd::prelude::*;
use crate::constants::{
    FTDI_PRODUCT_FT2232, FTDI_PRODUCT_FT230X, FTDI_PRODUCT_FT232, FTDI_PRODUCT_FT232H,
    FTDI_PRODUCT_FT4232, FTDI_VENDOR_ID,
};
use crate::context::ftdi_context;
use crate::error::{ErrorKind, FtdiContextError, FtdiError};

verus! {

/// A device's vendor and product ids, where its descriptor could be read.
#[derive(Copy, Clone, PartialEq, Eq, Structural, Debug)]
pub struct UsbIds {
    pub vendor_id: u16,
    pub product_id: u16,
}

/// Whether a device with ids `id_vendor:id_product` matches a search for
/// `vendor:product`. With both zero, the search is for FTDI's vendor id and
/// its five default product ids; otherwise both ids must be equal.
pub open spec fn device_matches(vendor: u16, product: u16, id_vendor: u16, id_product: u16) -> bool {
    if vendor > 0 || product > 0 {
        id_vendor == vendor && id_product == product
    } else {
        id_vendor == FTDI_VENDOR_ID && (id_product == FTDI_PRODUCT_FT232 || id_product
            == FTDI_PRODUCT_FT2232 || id_product == FTDI_PRODUCT_FT4232 || id_product
            == FTDI_PRODUCT_FT232H || id_product == FTDI_PRODUCT_FT230X)
    }
}

/// Whether an entry of the transport's list matches; one whose descriptor
/// could not be read never does.
pub open spec fn entry_matches(entry: Option<UsbIds>, vendor: u16, product: u16) -> bool {
    match entry {
        Some(ids) => device_matches(vendor, product, ids.vendor_id, ids.product_id),
        None => false,
    }
}

/// The positions of the matching entries, in list order.
pub open spec fn matching_positions(entries: Seq<Option<UsbIds>>, vendor: u16, product: u16) -> Seq<
    usize,
>
    decreases entries.len(),
{
    if entries.len() == 0 {
        Seq::empty()
    } else {
        let before = matching_positions(entries.drop_last(), vendor, product);
        if entry_matches(entries.last(), vendor, product) {
            before.push((entries.len() - 1) as usize)
        } else {
            before
        }
    }
}

/// Whether a device matches the search criteria.
pub fn ftdi_device_matches(vendor: u16, product: u16, id_vendor: u16, id_product: u16) -> (r: bool)
    ensures
        r == device_matches(vendor, product, id_vendor, id_product),
{
    if vendor > 0 || product > 0 {
        id_vendor == vendor && id_product == product
    } else {
        id_vendor == FTDI_VENDOR_ID && (id_product == FTDI_PRODUCT_FT232 || id_product
            == FTDI_PRODUCT_FT2232 || id_product == FTDI_PRODUCT_FT4232 || id_product
            == FTDI_PRODUCT_FT232H || id_product == FTDI_PRODUCT_FT230X)
    }
}

/// A listing of devices: the references it holds, by position in the
/// transport's device list.
pub struct ftdi_device_list {
    /// The number of devices the listing holds.
    pub number_found_devices: usize,
    /// The positions of the devices the listing holds a reference to.
    pub devices: Vec<usize>,
    /// The listing holds the transport's whole device array.
    pub system_device_list: bool,
}

/// What the transport has to release when a listing goes.
pub struct ListRelease {
    /// One reference to drop for each of these positions.
    pub device_references: Vec<usize>,
    /// Free the transport's device array.
    pub free_system_list: bool,
}

impl ftdi_device_list {
    /// The count and the references agree.
    pub open spec fn wf(&self) -> bool {
        self.number_found_devices == self.devices@.len()
    }

    /// The listing of all `device_count` devices of the transport, given the
    /// count that the transport's enumeration returned; a negative count is
    /// its failure.
    pub fn new(ftdi: &ftdi_context, device_count: isize) -> (r: Result<ftdi_device_list, FtdiError>)
        ensures
            !ftdi.usb_ctx ==> (r matches Err(e) && e.is(ErrorKind::Init, -100)),
            ftdi.usb_ctx && device_count < 0 ==> (r matches Err(e) && e.is(ErrorKind::Command, -5)),
            r is Ok <==> ftdi.usb_ctx && device_count >= 0,
            r matches Ok(l) ==> l.wf() && l.system_device_list && l.devices@ == Seq::new(
                device_count as nat,
                |i: int| i as usize,
            ),
    {
        if !ftdi.usb_ctx {
            return Err(
                FtdiContextError::new(
                    ErrorKind::Init,
                    -100,
                    "ftdi context is not initialized previously",
                ),
            );
        }
        if device_count < 0 {
            return Err(
                FtdiContextError::new(ErrorKind::Command, -5, "libusb_get_device_list() failed"),
            );
        }
        let mut devices: Vec<usize> = Vec::new();
        let count = device_count as usize;
        let mut i: usize = 0;
        while i < count
            invariant
                i <= count,
                count == device_count,
                devices@ == Seq::new(i as nat, |k: int| k as usize),
            decreases count - i,
        {
            devices.push(i);
            i = i + 1;
        }
        Ok(ftdi_device_list { number_found_devices: count, devices, system_device_list: true })
    }

    /// A new listing of the devices of this one that match `vendor:product`,
    /// given the ids read from each (`None` where the descriptor could not be
    /// read). Each device of the new listing takes a reference of its own;
    /// this listing lets go of the transport's array, which is freed.
    pub fn ftdi_usb_find_all(
        &mut self,
        ftdi: &ftdi_context,
        vendor: u16,
        product: u16,
        entries: &Vec<Option<UsbIds>>,
    ) -> (r: Result<(ftdi_device_list, bool), FtdiError>)
        requires
            old(self).wf(),
            entries@.len() == old(self).number_found_devices,
        ensures
            !ftdi.usb_ctx ==> (r matches Err(e) && e.is(ErrorKind::Init, -100)),
            ftdi.usb_ctx && !old(self).system_device_list && old(self).number_found_devices == 0
                ==> (r matches Err(e) && e.is(ErrorKind::Init, -101)),
            r is Ok <==> ftdi.usb_ctx && (old(self).system_device_list
                || old(self).number_found_devices > 0),
            r is Err ==> *final(self) == *old(self),
            r matches Ok((l, free_system_list)) ==> {
                &&& l.wf() && !l.system_device_list
                &&& l.devices@ == matching_positions(entries@, vendor, product)
                &&& free_system_list == old(self).system_device_list
                &&& !final(self).system_device_list
                &&& final(self).devices == old(self).devices
                &&& final(self).wf()
            },
    {
        if !ftdi.usb_ctx {
            return Err(
                FtdiContextError::new(
                    ErrorKind::Init,
                    -100,
                    "ftdi context is not initialized previously",
                ),
            );
        }
        if !self.system_device_list && self.number_found_devices == 0 {
            return Err(
                FtdiContextError::new(
                    ErrorKind::Init,
                    -101,
                    "ftdi_device_list is not created previously",
                ),
            );
        }
        let mut found: Vec<usize> = Vec::new();
        let mut i: usize = 0;
        while i < entries.len()
            invariant
                i <= entries@.len(),
                found@ == matching_positions(entries@.subrange(0, i as int), vendor, product),
            decreases entries@.len() - i,
        {
            assert(entries@.subrange(0, i + 1).drop_last() =~= entries@.subrange(0, i as int));
            match entries[i] {
                Some(ids) => {
                    if ftdi_device_matches(vendor, product, ids.vendor_id, ids.product_id) {
                        found.push(i);
                    }
                },
                None => {},
            }
            i = i + 1;
        }
        assert(entries@.subrange(0, entries@.len() as int) =~= entries@);
        let free_system_list = self.system_device_list;
        self.system_device_list = false;
        let count = found.len();
        Ok((ftdi_device_list { number_found_devices: count, devices: found, system_device_list: false }, free_system_list))
    }

    /// Lets go of everything the listing holds and says what the transport
    /// has to release: each reference exactly once, and the array if held.
    /// Releasing again releases nothing.
    pub fn release(&mut self) -> (r: ListRelease)
        requires
            old(self).wf(),
        ensures
            r.device_references@ == old(self).devices@,
            r.free_system_list == old(self).system_device_list,
            final(self).wf(),
            final(self).number_found_devices == 0,
            final(self).devices@.len() == 0,
            !final(self).system_device_list,
    {
        let mut device_references: Vec<usize> = Vec::new();
        std::mem::swap(&mut device_references, &mut self.devices);
        let free_system_list = self.system_device_list;
        self.system_device_list = false;
        self.number_found_devices = 0;
        ListRelease { device_references, free_system_list }
    }
}

/// A search that no device matches yields an empty listing: its count is 0
/// and it holds no reference that would need releasing.
pub proof fn lemma_no_match_empty_listing(entries: Seq<Option<UsbIds>>, vendor: u16, product: u16)
    requires
        forall|i: int| 0 <= i < entries.len() ==> !entry_matches(#[trigger] entries[i], vendor, product),
    ensures
        matching_positions(entries, vendor, product).len() == 0,
    decreases entries.len(),
{
    if entries.len() > 0 {
        let before = entries.drop_last();
        assert forall|i: int| 0 <= i < before.len() implies !entry_matches(
            #[trigger] before[i],
            vendor,
            product,
        ) by {
            assert(before[i] == entries[i]);
        }
        lemma_no_match_empty_listing(before, vendor, product);
        assert(!entry_matches(entries[entries.len() - 1], vendor, product));
    }
}

/// What was read of a device of the transport's list for choosing among
/// them: its ids (`None` where the descriptor could not be read), its
/// location, and its product and serial strings where they were read.
pub struct DeviceCandidate {
    pub ids: Option<UsbIds>,
    pub bus_number: u8,
    pub device_address: u8,
    pub product: Option<Vec<u8>>,
    pub serial: Option<Vec<u8>>,
}

/// A wanted string matches when none is wanted, or when the device's
/// string was read and is equal to it.
pub open spec fn string_matches(wanted: Option<Seq<u8>>, got: Option<Seq<u8>>) -> bool {
    match wanted {
        None => true,
        Some(w) => got == Some(w),
    }
}

pub open spec fn opt_view(v: Option<Vec<u8>>) -> Option<Seq<u8>> {
    match v {
        Some(x) => Some(x@),
        None => None,
    }
}

/// Whether a candidate is acceptable for opening by ids, description and serial.
pub open spec fn candidate_accepted(
    c: DeviceCandidate,
    vendor: u16,
    product: u16,
    description: Option<Seq<u8>>,
    serial: Option<Seq<u8>>,
) -> bool {
    &&& entry_matches(c.ids, vendor, product)
    &&& string_matches(description, opt_view(c.product))
    &&& string_matches(serial, opt_view(c.serial))
}

/// The number of acceptable candidates among the first `n`.
pub open spec fn accepted_before(
    cs: Seq<DeviceCandidate>,
    n: int,
    vendor: u16,
    product: u16,
    description: Option<Seq<u8>>,
    serial: Option<Seq<u8>>,
) -> nat
    decreases n,
{
    if n <= 0 {
        0
    } else {
        accepted_before(cs, n - 1, vendor, product, description, serial) + if candidate_accepted(
            cs[n - 1],
            vendor,
            product,
            description,
            serial,
        ) {
            1nat
        } else {
            0nat
        }
    }
}

proof fn lemma_accepted_before_mono(
    cs: Seq<DeviceCandidate>,
    a: int,
    b: int,
    vendor: u16,
    product: u16,
    description: Option<Seq<u8>>,
    serial: Option<Seq<u8>>,
)
    requires
        0 <= a <= b,
    ensures
        accepted_before(cs, a, vendor, product, description, serial) <= accepted_before(
            cs,
            b,
            vendor,
            product,
            description,
            serial,
        ),
    decreases b - a,
{
    if a < b {
        lemma_accepted_before_mono(cs, a, b - 1, vendor, product, description, serial);
    }
}

fn bytes_eq(a: &Vec<u8>, b: &Vec<u8>) -> (r: bool)
    ensures
        r == (a@ == b@),
{
    if a.len() != b.len() {
        return false;
    }
    let mut i: usize = 0;
    while i < a.len()
        invariant
            a@.len() == b@.len(),
            i <= a@.len(),
            forall|k: int| 0 <= k < i ==> a@[k] == b@[k],
        decreases a@.len() - i,
    {
        if a[i] != b[i] {
            return false;
        }
        i = i + 1;
    }
    assert(a@ =~= b@);
    true
}

fn string_matches_exec(wanted: &Option<Vec<u8>>, got: &Option<Vec<u8>>) -> (r: bool)
    ensures
        r == string_matches(opt_view(*wanted), opt_view(*got)),
{
    match wanted {
        None => true,
        Some(w) => match got {
            Some(g) => bytes_eq(w, g),
            None => false,
        },
    }
}

impl ftdi_context {
    /// The position of the device to open by ids: the `index`-th (from 0)
    /// candidate that matches the ids (as `device_matches` says) and, where
    /// given, the product description and the serial number. It needs a
    /// live transport context (initialization error -100); with no such
    /// candidate it is the common error -3, device not found.
    pub fn ftdi_usb_open_desc_index(
        &self,
        candidates: &Vec<DeviceCandidate>,
        vendor: u16,
        product: u16,
        description: &Option<Vec<u8>>,
        serial: &Option<Vec<u8>>,
        index: usize,
    ) -> (r: Result<usize, FtdiContextError>)
        ensures
            ({
                let cs = candidates@;
                let d = opt_view(*description);
                let sr = opt_view(*serial);
                &&& !self.usb_ctx ==> (r matches Err(e) && e.is(ErrorKind::Init, -100))
                &&& r matches Ok(p) ==> p < cs.len() && candidate_accepted(cs[p as int], vendor, product, d, sr)
                    && accepted_before(cs, p as int, vendor, product, d, sr) == index
                &&& self.usb_ctx ==> (r is Err <==> accepted_before(cs, cs.len() as int, vendor, product, d, sr) <= index)
                &&& self.usb_ctx ==> (r matches Err(e) ==> e.is(ErrorKind::Common, -3))
            }),
    {
        if !self.usb_ctx {
            return Err(
                FtdiContextError::new(
                    ErrorKind::Init,
                    -100,
                    "ftdi context is not initialized previously",
                ),
            );
        }
        let ghost d = opt_view(*description);
        let ghost sr = opt_view(*serial);
        let mut seen: usize = 0;
        let mut i: usize = 0;
        while i < candidates.len()
            invariant
                i <= candidates@.len(),
                seen == accepted_before(candidates@, i as int, vendor, product, d, sr),
                seen <= index,
                self.usb_ctx,
                d == opt_view(*description),
                sr == opt_view(*serial),
            decreases candidates@.len() - i,
        {
            let c = &candidates[i];
            let id_match = match c.ids {
                Some(ids) => ftdi_device_matches(vendor, product, ids.vendor_id, ids.product_id),
                None => false,
            };
            let accepted = id_match && string_matches_exec(description, &c.product)
                && string_matches_exec(serial, &c.serial);
            assert(accepted == candidate_accepted(candidates@[i as int], vendor, product, d, sr));
            if accepted {
                if seen == index {
                    proof {
                        lemma_accepted_before_mono(
                            candidates@,
                            i + 1,
                            candidates@.len() as int,
                            vendor,
                            product,
                            d,
                            sr,
                        );
                    }
                    return Ok(i);
                }
                seen = seen + 1;
            }
            i = i + 1;
        }
        Err(FtdiContextError::new(ErrorKind::Common, -3, "device not found"))
    }

    /// The position of the first device with the ids; as
    /// `ftdi_usb_open_desc_index` with no strings and index 0.
    pub fn ftdi_usb_open(&self, candidates: &Vec<DeviceCandidate>, vendor: u16, product: u16) -> (r:
        Result<usize, FtdiContextError>)
        ensures
            !self.usb_ctx ==> (r matches Err(e) && e.is(ErrorKind::Init, -100)),
            r matches Ok(p) ==> p < candidates@.len() && candidate_accepted(
                candidates@[p as int],
                vendor,
                product,
                None,
                None,
            ) && accepted_before(candidates@, p as int, vendor, product, None, None) == 0,
            self.usb_ctx ==> (r is Err <==> accepted_before(
                candidates@,
                candidates@.len() as int,
                vendor,
                product,
                None,
                None,
            ) == 0),
    {
        self.ftdi_usb_open_desc(candidates, vendor, product, &None, &None)
    }

    /// The position of the first device with the ids, description and
    /// serial; as `ftdi_usb_open_desc_index` with index 0.
    pub fn ftdi_usb_open_desc(
        &self,
        candidates: &Vec<DeviceCandidate>,
        vendor: u16,
        product: u16,
        description: &Option<Vec<u8>>,
        serial: &Option<Vec<u8>>,
    ) -> (r: Result<usize, FtdiContextError>)
        ensures
            ({
                let cs = candidates@;
                let d = opt_view(*description);
                let sr = opt_view(*serial);
                &&& !self.usb_ctx ==> (r matches Err(e) && e.is(ErrorKind::Init, -100))
                &&& r matches Ok(p) ==> p < cs.len() && candidate_accepted(cs[p as int], vendor, product, d, sr)
                    && accepted_before(cs, p as int, vendor, product, d, sr) == 0
                &&& self.usb_ctx ==> (r is Err <==> accepted_before(cs, cs.len() as int, vendor, product, d, sr) == 0)
            }),
    {
        self.ftdi_usb_open_desc_index(candidates, vendor, product, description, serial, 0)
    }

    /// The position of the first device at the bus number and device
    /// address. It needs a live transport context (initialization error
    /// -100); with no such device it is the common error -3.
    pub fn ftdi_usb_open_bus_addr(
        &self,
        candidates: &Vec<DeviceCandidate>,
        bus_number: u16,
        device_address: u16,
    ) -> (r: Result<usize, FtdiContextError>)
        ensures
            !self.usb_ctx ==> (r matches Err(e) && e.is(ErrorKind::Init, -100)),
            r matches Ok(p) ==> p < candidates@.len() && candidates@[p as int].bus_number
                == bus_number && candidates@[p as int].device_address == device_address && forall|
                k: int,
            |
                0 <= k < p ==> !(candidates@[k].bus_number == bus_number
                    && candidates@[k].device_address == device_address),
            self.usb_ctx ==> (r is Err <==> forall|k: int|
                0 <= k < candidates@.len() ==> !(candidates@[k].bus_number == bus_number
                    && candidates@[k].device_address == device_address)),
            self.usb_ctx ==> (r matches Err(e) ==> e.is(ErrorKind::Common, -3)),
    {
        if !self.usb_ctx {
            return Err(
                FtdiContextError::new(
                    ErrorKind::Init,
                    -100,
                    "ftdi context is not initialized previously",
                ),
            );
        }
        let mut i: usize = 0;
        while i < candidates.len()
            invariant
                i <= candidates@.len(),
                self.usb_ctx,
                forall|k: int|
                    0 <= k < i ==> !(candidates@[k].bus_number == bus_number
                        && candidates@[k].device_address == device_address),
            decreases candidates@.len() - i,
        {
            if candidates[i].bus_number as u16 == bus_number && candidates[i].device_address as u16
                == device_address {
                return Ok(i);
            }
            i = i + 1;
        }
        Err(FtdiContextError::new(ErrorKind::Common, -3, "device not found"))
    }
}

} // verus!
