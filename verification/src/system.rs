//! Raspberry Pi hardware identification.
//!
//! [`DeviceInfo`] resolves board identity to the peripheral base address and
//! GPIO block offset that the register map is laid out against. Identity is
//! decided from the lines of the kernel's cpuinfo listing, which carry the
//! SoC name under a `Hardware` key and the board revision under a `Revision`
//! key; reading that listing is plain file I/O and is left to the embedding
//! program, which hands the lines over as byte strings.

use vstd::prelude::*;
use vstd::string::StringSliceAdditionalSpecFns;
use vstd::slice::slice_index_get;

verus! {

/// Errors that can occur when trying to identify the Raspberry Pi hardware.
#[derive(Debug)]
pub enum Error {
    /// The Raspberry Pi model couldn't be identified from the cpuinfo
    /// listing: either the listing carries no recognised `Hardware` and
    /// `Revision` values, or the board is a model this crate doesn't know.
    UnknownModel,
}

/// Identifiable Raspberry Pi models.
#[derive(Debug, PartialEq, Eq, Copy, Clone, Structural)]
pub enum Model {
    RaspberryPi4ModelB,
}

/// Identifiable Raspberry Pi SoCs.
#[derive(Debug, PartialEq, Eq, Copy, Clone, Structural)]
pub enum SoC {
    Bcm2711,
}

impl Model {
    /// A display name for the model.
    pub fn name(&self) -> (r: &'static str)
        ensures
            r@ == "RaspberryPi4ModelB"@,
    {
        "RaspberryPi4ModelB"
    }
}

impl SoC {
    /// A display name for the SoC.
    pub fn name(&self) -> (r: &'static str)
        ensures
            r@ == "BCM2711"@,
    {
        "BCM2711"
    }
}

impl Error {
    /// A display message for the error.
    pub fn describe(&self) -> (r: &'static str)
        ensures
            r@ == "Unknown Raspberry Pi model"@,
    {
        "Unknown Raspberry Pi model"
    }
}

/// The key prefix of a cpuinfo line that names the SoC.
pub open spec fn hardware_prefix() -> Seq<u8> {
    "Hardware\t: ".spec_bytes()
}

/// The key prefix of a cpuinfo line that names the board revision.
pub open spec fn revision_prefix() -> Seq<u8> {
    "Revision\t: ".spec_bytes()
}

/// The hardware value that identifies the BCM2711.
pub open spec fn bcm2711_hardware() -> Seq<u8> {
    "BCM2711".spec_bytes()
}

/// The (lower-cased) revision code of the Raspberry Pi 4 Model B.
pub open spec fn rpi4_b_revision() -> Seq<u8> {
    "d03114".spec_bytes()
}

/// Whether `line` begins with `prefix`.
pub open spec fn starts_with(line: Seq<u8>, prefix: Seq<u8>) -> bool {
    prefix.len() <= line.len() && line.subrange(0, prefix.len() as int) == prefix
}

/// What remains of `line` after `prefix`.
pub open spec fn suffix_after(line: Seq<u8>, prefix: Seq<u8>) -> Seq<u8> {
    line.subrange(prefix.len() as int, line.len() as int)
}

/// The ASCII lower-case image of one byte.
pub open spec fn lower_byte(b: u8) -> u8 {
    if 65 <= b && b <= 90 {  // 'A' ..= 'Z'
        (b + 32) as u8
    } else {
        b
    }
}

/// The ASCII lower-case image of a byte string.
pub open spec fn lower_bytes(s: Seq<u8>) -> Seq<u8> {
    s.map_values(|b: u8| lower_byte(b))
}

/// The value carried by the last line that begins with `prefix`; empty if no
/// line does. Later lines overwrite earlier ones, as repeated keys in a
/// cpuinfo listing do.
pub open spec fn last_field(lines: Seq<Seq<u8>>, prefix: Seq<u8>) -> Seq<u8>
    decreases lines.len(),
{
    if lines.len() == 0 {
        Seq::empty()
    } else if starts_with(lines.last(), prefix) {
        suffix_after(lines.last(), prefix)
    } else {
        last_field(lines.drop_last(), prefix)
    }
}

/// Whether a cpuinfo listing identifies a Raspberry Pi 4 Model B: the last
/// `Hardware` value is the BCM2711 and the last `Revision` value lower-cases
/// to its revision code.
pub open spec fn identifies_rpi4_b(lines: Seq<Seq<u8>>) -> bool {
    &&& last_field(lines, hardware_prefix()) == bcm2711_hardware()
    &&& lower_bytes(last_field(lines, revision_prefix())) == rpi4_b_revision()
}

/// Whether `line` begins with `prefix`.
fn starts_with_bytes(line: &Vec<u8>, prefix: &[u8]) -> (r: bool)
    ensures
        r == starts_with(line@, prefix@),
{
    let n = prefix.len();
    if n > line.len() {
        return false;
    }
    let mut i: usize = 0;
    while i < n
        invariant
            i <= n,
            n == prefix@.len(),
            n <= line@.len(),
            forall|j: int| 0 <= j < i ==> line@[j] == prefix@[j],
        decreases n - i,
    {
        if line[i] != *slice_index_get(prefix, i) {
            assert(line@.subrange(0, n as int)[i as int] != prefix@[i as int]);
            return false;
        }
        i = i + 1;
    }
    proof {
        assert(line@.subrange(0, n as int) =~= prefix@);
    }
    true
}

/// The value of `line` after `prefix`, or `None` if the line does not carry
/// that prefix.
fn field_value(line: &Vec<u8>, prefix: &[u8]) -> (r: Option<Vec<u8>>)
    ensures
        starts_with(line@, prefix@) ==> (r matches Some(v) && v@ == suffix_after(line@, prefix@)),
        !starts_with(line@, prefix@) ==> r is None,
{
    if !starts_with_bytes(line, prefix) {
        return None;
    }
    let mut v: Vec<u8> = Vec::new();
    let mut i: usize = prefix.len();
    while i < line.len()
        invariant
            prefix@.len() <= i <= line@.len(),
            v@ == line@.subrange(prefix@.len() as int, i as int),
        decreases line@.len() - i,
    {
        let b = line[i];
        v.push(b);
        i = i + 1;
        proof {
            assert(v@ =~= line@.subrange(prefix@.len() as int, i as int));
        }
    }
    Some(v)
}

/// The ASCII lower-case image of a byte string.
fn lower_vec(s: &Vec<u8>) -> (r: Vec<u8>)
    ensures
        r@ == lower_bytes(s@),
{
    let mut r: Vec<u8> = Vec::new();
    let mut i: usize = 0;
    while i < s.len()
        invariant
            i <= s@.len(),
            r@.len() == i,
            forall|j: int| 0 <= j < i ==> r@[j] == lower_byte(s@[j]),
        decreases s@.len() - i,
    {
        let b = s[i];
        if 65 <= b && b <= 90 {
            r.push(b + 32);
        } else {
            r.push(b);
        }
        i = i + 1;
    }
    proof {
        assert(r@ =~= lower_bytes(s@));
    }
    r
}

/// Whether a byte vector equals a byte slice.
fn bytes_eq(a: &Vec<u8>, b: &[u8]) -> (r: bool)
    ensures
        r == (a@ == b@),
{
    let n = a.len();
    if n != b.len() {
        proof {
            assert(a@ != b@);
        }
        return false;
    }
    let mut i: usize = 0;
    while i < n
        invariant
            i <= n,
            n == a@.len(),
            n == b@.len(),
            forall|j: int| 0 <= j < i ==> a@[j] == b@[j],
        decreases n - i,
    {
        if a[i] != *slice_index_get(b, i) {
            return false;
        }
        i = i + 1;
    }
    proof {
        assert(a@ =~= b@);
    }
    true
}

const PERIPHERAL_BASE_RPI4: u32 = 0xfe00_0000;

const GPIO_OFFSET: u32 = 0x20_0000;

/// The identified board: its model, SoC variant, and the addresses the GPIO
/// register block is reached through.
#[derive(Debug, PartialEq, Eq, Copy, Clone, Structural)]
pub struct DeviceInfo {
    model: Model,
    soc: SoC,
    peripheral_base: u32,
    gpio_offset: u32,
}

impl DeviceInfo {
    /// The identified model.
    pub closed spec fn spec_model(self) -> Model {
        self.model
    }

    /// The identified SoC variant.
    pub closed spec fn spec_soc(self) -> SoC {
        self.soc
    }

    /// The physical base address of the peripheral window.
    pub closed spec fn spec_peripheral_base(self) -> u32 {
        self.peripheral_base
    }

    /// The offset of the GPIO register block within the peripheral window.
    pub closed spec fn spec_gpio_offset(self) -> u32 {
        self.gpio_offset
    }

    /// The identified model.
    pub fn model(&self) -> (r: Model)
        ensures
            r == self.spec_model(),
    {
        self.model
    }

    /// The identified SoC variant.
    pub fn soc(&self) -> (r: SoC)
        ensures
            r == self.spec_soc(),
    {
        self.soc
    }

    /// The physical base address of the peripheral window.
    pub fn peripheral_base(&self) -> (r: u32)
        ensures
            r == self.spec_peripheral_base(),
    {
        self.peripheral_base
    }

    /// The offset of the GPIO register block within the peripheral window.
    pub fn gpio_offset(&self) -> (r: u32)
        ensures
            r == self.spec_gpio_offset(),
    {
        self.gpio_offset
    }

    /// Identifies the board from the lines of the cpuinfo listing: scans for
    /// the last `Hardware` and `Revision` values (the revision compared
    /// case-insensitively) and succeeds iff they name a known board,
    /// returning its resolved addresses. Every other listing is rejected
    /// with [`Error::UnknownModel`].
    pub fn parse_cpuinfo(lines: &Vec<Vec<u8>>) -> (r: Result<DeviceInfo, Error>)
        ensures
            identifies_rpi4_b(lines.deep_view()) ==> (r matches Ok(d)
                && d.spec_model() == Model::RaspberryPi4ModelB && d.spec_soc() == SoC::Bcm2711
                && d.spec_peripheral_base() == 0xfe00_0000 && d.spec_gpio_offset() == 0x20_0000),
            !identifies_rpi4_b(lines.deep_view()) ==> (r matches Err(e) && e is UnknownModel),
    {
        let hardware_key: &[u8] = "Hardware\t: ".as_bytes();
        let revision_key: &[u8] = "Revision\t: ".as_bytes();
        let mut hardware: Vec<u8> = Vec::new();
        let mut revision: Vec<u8> = Vec::new();
        proof {
            assert(lines.deep_view().take(0) =~= Seq::<Seq<u8>>::empty());
            assert(lower_bytes(Seq::<u8>::empty()) =~= Seq::<u8>::empty());
        }
        let mut i: usize = 0;
        while i < lines.len()
            invariant
                i <= lines@.len(),
                lines.deep_view().len() == lines@.len(),
                hardware_key@ == hardware_prefix(),
                revision_key@ == revision_prefix(),
                hardware@ == last_field(lines.deep_view().take(i as int), hardware_prefix()),
                revision@ == lower_bytes(
                    last_field(lines.deep_view().take(i as int), revision_prefix()),
                ),
            decreases lines@.len() - i,
        {
            let line = &lines[i];
            proof {
                assert(line.deep_view() =~= line@);
                assert(lines.deep_view()[i as int] == line@);
                assert(lines.deep_view().take(i + 1).drop_last() =~= lines.deep_view().take(
                    i as int,
                ));
                assert(lines.deep_view().take(i + 1).last() == line@);
            }
            if let Some(v) = field_value(line, hardware_key) {
                hardware = v;
            }
            if let Some(v) = field_value(line, revision_key) {
                revision = lower_vec(&v);
            }
            i = i + 1;
        }
        proof {
            assert(lines.deep_view().take(lines@.len() as int) =~= lines.deep_view());
        }
        if !bytes_eq(&hardware, "BCM2711".as_bytes()) {
            return Err(Error::UnknownModel);
        }
        if !bytes_eq(&revision, "d03114".as_bytes()) {
            return Err(Error::UnknownModel);
        }
        Ok(
            DeviceInfo {
                model: Model::RaspberryPi4ModelB,
                soc: SoC::Bcm2711,
                peripheral_base: PERIPHERAL_BASE_RPI4,
                gpio_offset: GPIO_OFFSET,
            },
        )
    }

    /// Identifies the board this process runs on, given the lines of the
    /// kernel's cpuinfo listing; see [`DeviceInfo::parse_cpuinfo`].
    pub fn new(lines: &Vec<Vec<u8>>) -> (r: Result<DeviceInfo, Error>)
        ensures
            identifies_rpi4_b(lines.deep_view()) ==> (r matches Ok(d)
                && d.spec_model() == Model::RaspberryPi4ModelB && d.spec_soc() == SoC::Bcm2711
                && d.spec_peripheral_base() == 0xfe00_0000 && d.spec_gpio_offset() == 0x20_0000),
            !identifies_rpi4_b(lines.deep_view()) ==> (r matches Err(e) && e is UnknownModel),
    {
        DeviceInfo::parse_cpuinfo(lines)
    }
}

} // verus!
