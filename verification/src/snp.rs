//! The decisions of the SEV-SNP attestation flows: which key signed a report,
//! which processor model the certificates belong to, where the certificates
//! come from, and which workflow verifies a report.
use vstd::prelude::*;
use vstd::string::StringExecFns;

use crate::text::str_eq;

verus! {

/// Errors of the SEV-SNP attestation flows.
#[derive(Debug)]
pub enum SevSnpError {
    /// "VLEK Flow must be used for VLEK certs."
    VlekFlowRequired,
    /// "VLEK Flow can only be used for VLEK certs!"
    VlekFlowOnlyForVlek,
    /// "Extended attestation flow cannot be used with Hyper-V!"
    ExtendedFlowOnHyperV,
    /// "Only Regular Attestation Flow is supported on Hyper-V!"
    OnlyRegularFlowOnHyperV,
    /// "Regular attestation workflow can only be used if the report is signed with VCEK!"
    RegularFlowNeedsVcek,
    /// "Extended attestation workflow can only be used if the report is signed with VCEK!"
    ExtendedFlowNeedsVcek,
    /// "VLEK attestation workflow can only be used if the report is signed with VLEK!"
    VlekFlowNeedsVlek,
    /// "Missing VCEK, ARK and ASK certs from host device to verify Attestation Report!"
    MissingVcekArkAsk,
    /// "Missing VLEK cert from host device to verify Attestation Report!"
    MissingVlek,
    /// "Unknown Signer for attestation report!"
    UnknownSigner,
    /// "User-defined report data is not supported on Azure."
    ReportDataOnAzure,
    /// "Azure vTPM attestation report requires VMPL 0!"
    AzureNeedsVmpl0,
    /// "HyperV does not support fetching certificates"
    HyperVCertificates,
    /// "No certificates were loaded by the host!"
    NoCertificatesLoaded,
    /// "Unhandled CPU: {brand}"
    UnhandledCpu { brand: String },
}

/// AMD EPYC processor models.
#[derive(Debug, Clone, Copy, PartialEq, Eq, Structural)]
pub enum ProcType {
    /// 7003 series AMD EPYC Processor
    Milan,
    /// 9004 series AMD EPYC Processor
    Genoa,
    /// 97x4 series AMD EPYC Processor
    Bergamo,
    /// 8004 series AMD EPYC Processor
    Siena,
}

impl ProcType {
    /// The model's name.
    pub open spec fn spec_name(self) -> Seq<char> {
        match self {
            ProcType::Milan => "Milan"@,
            ProcType::Genoa => "Genoa"@,
            ProcType::Bergamo => "Bergamo"@,
            ProcType::Siena => "Siena"@,
        }
    }

    /// The model's name (its display text).
    pub fn name(&self) -> (r: String)
        ensures
            r@ == self.spec_name(),
    {
        match self {
            ProcType::Milan => String::from_str("Milan"),
            ProcType::Genoa => String::from_str("Genoa"),
            ProcType::Bergamo => String::from_str("Bergamo"),
            ProcType::Siena => String::from_str("Siena"),
        }
    }

    /// The model name under which the AMD Key Distribution Service files the
    /// model's certificates: Genoa, Siena and Bergamo share Genoa's.
    pub fn to_kds_url(&self) -> (r: String)
        ensures
            r@ == match self {
                ProcType::Milan => "Milan"@,
                _ => "Genoa"@,
            },
    {
        match self {
            ProcType::Genoa | ProcType::Siena | ProcType::Bergamo => ProcType::Genoa.name(),
            _ => self.name(),
        }
    }
}

/// `needle` occurs in `hay` at index `i`.
pub open spec fn occurs_at(hay: Seq<char>, needle: Seq<char>, i: int) -> bool {
    0 <= i && i + needle.len() <= hay.len() && hay.subrange(i, i + needle.len()) == needle
}

/// `needle` occurs somewhere in `hay`.
pub open spec fn spec_contains(hay: Seq<char>, needle: Seq<char>) -> bool {
    exists|i: int| occurs_at(hay, needle, i)
}

/// Whether `needle` occurs in `hay`.
pub fn str_contains(hay: &str, needle: &str) -> (r: bool)
    ensures
        r == spec_contains(hay@, needle@),
{
    let n = hay.unicode_len();
    let m = needle.unicode_len();
    if m > n {
        assert forall|i: int| !occurs_at(hay@, needle@, i) by {}
        return false;
    }
    let mut i: usize = 0;
    while i <= n - m
        invariant
            n == hay@.len(),
            m == needle@.len(),
            m <= n,
            i <= n - m + 1,
            forall|k: int| 0 <= k < i ==> !occurs_at(hay@, needle@, k),
        decreases n - m + 1 - i,
    {
        let mut j: usize = 0;
        let mut same = true;
        while j < m
            invariant
                n == hay@.len(),
                m == needle@.len(),
                i + m <= n,
                j <= m,
                same == (forall|t: int| 0 <= t < j ==> hay@[i + t] == needle@[t]),
            decreases m - j,
        {
            if hay.get_char(i + j) != needle.get_char(j) {
                same = false;
            }
            j = j + 1;
        }
        if same {
            assert(hay@.subrange(i as int, i + m) =~= needle@);
            assert(occurs_at(hay@, needle@, i as int));
            return true;
        }
        assert(!occurs_at(hay@, needle@, i as int)) by {
            if hay@.subrange(i as int, i + m) == needle@ {
                assert forall|t: int| 0 <= t < m implies hay@[i + t] == needle@[t] by {
                    assert(hay@.subrange(i as int, i + m)[t] == hay@[i + t]);
                }
            }
        }
        i = i + 1;
    }
    assert forall|k: int| !occurs_at(hay@, needle@, k) by {
        if 0 <= k && k + m <= n {
            assert(k < i);
        }
    }
    false
}

/// The processor model that a CPU brand string names: Milan for the brands
/// with "7R13", "7B13" or "19/01" in them; an error for any other.
pub fn get_processor_codename(cpu_brand: &str) -> (r: Result<ProcType, SevSnpError>)
    ensures
        (spec_contains(cpu_brand@, "7R13"@) || spec_contains(cpu_brand@, "7B13"@)
            || spec_contains(cpu_brand@, "19/01"@)) ==> r == Ok::<ProcType, SevSnpError>(
            ProcType::Milan,
        ),
        !(spec_contains(cpu_brand@, "7R13"@) || spec_contains(cpu_brand@, "7B13"@)
            || spec_contains(cpu_brand@, "19/01"@)) ==> (r matches Err(
            SevSnpError::UnhandledCpu { brand },
        ) && brand@ == cpu_brand@),
{
    if str_contains(cpu_brand, "7R13") || str_contains(cpu_brand, "7B13") || str_contains(
        cpu_brand,
        "19/01",
    ) {
        return Ok(ProcType::Milan);
    }
    Err(SevSnpError::UnhandledCpu { brand: String::from_str(cpu_brand) })
}

/// Kinds of certificates in an SEV-SNP certificate table.
#[allow(non_camel_case_types)]
#[derive(Debug, Clone, Copy, PartialEq, Eq, Structural)]
pub enum CertType {
    /// Empty or closing entry for the CertTable
    Empty,
    /// AMD Root Signing Key (ARK) certificate
    ARK,
    /// AMD SEV Signing Key (ASK) certificate
    ASK,
    /// Versioned Chip Endorsement Key (VCEK) certificate
    VCEK,
    /// Versioned Loaded Endorsement Key (VLEK) certificate
    VLEK,
    /// Certificate Revocation List (CRLs) certificate(s)
    CRL,
    /// Other (identified by a GUID)
    OTHER,
}

/// The name under which a certificate kind is filed.
pub open spec fn cert_type_name(t: CertType) -> Seq<char> {
    match t {
        CertType::VCEK => "VCEK"@,
        CertType::VLEK => "VLEK"@,
        CertType::ARK => "ARK"@,
        CertType::ASK => "ASK"@,
        CertType::Empty => "Empty"@,
        CertType::CRL => "CRL"@,
        CertType::OTHER => "OTHER"@,
    }
}

/// Names for certificate kinds.
pub trait CertTypeExt {
    /// The name under which the certificate kind is filed.
    spec fn spec_string(&self) -> Seq<char>;

    fn string(&self) -> (r: String)
        ensures
            r@ == self.spec_string(),
    ;
}

impl CertTypeExt for CertType {
    open spec fn spec_string(&self) -> Seq<char> {
        cert_type_name(*self)
    }

    fn string(&self) -> (r: String) {
        match self {
            CertType::VCEK => String::from_str("VCEK"),
            CertType::VLEK => String::from_str("VLEK"),
            CertType::ARK => String::from_str("ARK"),
            CertType::ASK => String::from_str("ASK"),
            CertType::Empty => String::from_str("Empty"),
            CertType::CRL => String::from_str("CRL"),
            CertType::OTHER => String::from_str("OTHER"),
        }
    }
}

/// Offset of the KEY_INFO byte in an attestation report.
pub const KEY_INFO_OFFSET: usize = 0x48;

/// The key that signed a report, by the signing-key field (bits 2 to 4) of the
/// report's KEY_INFO byte: 0 for the VCEK, 1 for the VLEK.
pub open spec fn spec_signer_type(key_info: u8) -> Option<CertType> {
    if key_info & 0x1c == 0 {
        Some(CertType::VCEK)
    } else if key_info & 0x1c == 4 {
        Some(CertType::VLEK)
    } else {
        None
    }
}

/// The signer is told by the signing-key field of KEY_INFO alone (bits 2 to 4):
/// the other bits never change it; a field of 0 means the VCEK, 1 the VLEK, and
/// any other value no known signer.
pub proof fn lemma_signer_type_field(key_info: u8)
    ensures
        spec_signer_type(key_info) == spec_signer_type(key_info & 0x1c),
        (key_info >> 2u8) & 7u8 == 0 ==> spec_signer_type(key_info) == Some(CertType::VCEK),
        (key_info >> 2u8) & 7u8 == 1 ==> spec_signer_type(key_info) == Some(CertType::VLEK),
        (key_info >> 2u8) & 7u8 > 1 ==> spec_signer_type(key_info) is None,
{
    assert((key_info & 0x1c) & 0x1c == key_info & 0x1c) by (bit_vector);
    assert(((key_info >> 2u8) & 7u8 == 0) == (key_info & 0x1c == 0)) by (bit_vector);
    assert(((key_info >> 2u8) & 7u8 == 1) == (key_info & 0x1c == 4)) by (bit_vector);
}

/// Returns the Signing Key type used for a report, given the report's bytes.
/// 0: VCEK
/// 1: VLEK
/// 2-6: RESERVED
/// 7: None
pub fn get_signer_type(report: &[u8]) -> (r: Result<CertType, SevSnpError>)
    requires
        report@.len() > KEY_INFO_OFFSET,
    ensures
        match spec_signer_type(report@[KEY_INFO_OFFSET as int]) {
            Some(t) => r == Ok::<CertType, SevSnpError>(t),
            None => r == Err::<CertType, SevSnpError>(SevSnpError::UnknownSigner),
        },
{
    let bits = report[KEY_INFO_OFFSET];
    let signer_type = bits & 0x1c;
    if signer_type == 0 {
        return Ok(CertType::VCEK);
    } else if signer_type == 4 {
        return Ok(CertType::VLEK);
    }
    Err(SevSnpError::UnknownSigner)
}

/// Returns the cpu codename of the CPU used in the report. Reports from version 3
/// on carry the family and model (Family 25, Model 1 is Milan); other models,
/// and older reports, are taken as Milan for now.
pub fn get_cpu_codename(version: u32, report: &[u8]) -> (r: ProcType)
    requires
        version >= 3 ==> report@.len() > 0x18a,
    ensures
        r == ProcType::Milan,
{
    if version >= 3 {
        let fam_id = report[0x188];
        let mod_id = report[0x189];
        if fam_id == 25 && mod_id == 1 {
            return ProcType::Milan;
        }
    }
    ProcType::Milan
}

/// Indicate whether attestation verification should happen with
/// certs retrieved from SEV-SNP device or KDS or custom.
#[derive(Debug, Clone, Copy, PartialEq, Eq, Structural)]
pub enum AttestationFlow {
    Regular,
    Extended,
    Vlek,
}

/// The flow that verifies a report signed by `signer` by default: the VLEK flow
/// for VLEK-signed reports, the regular flow for all others.
pub fn default_flow(signer: CertType) -> (r: AttestationFlow)
    ensures
        r == (if signer == CertType::VLEK {
            AttestationFlow::Vlek
        } else {
            AttestationFlow::Regular
        }),
{
    if signer == CertType::VLEK {
        AttestationFlow::Vlek
    } else {
        AttestationFlow::Regular
    }
}

/// One certificate of a host's certificate table.
#[derive(Debug)]
pub struct CertTableEntry {
    pub cert_type: CertType,
    pub data: Vec<u8>,
}

/// Certificates filed by kind: at most one per kind.
#[derive(Debug)]
pub struct CertMap {
    empty: Option<Vec<u8>>,
    ark: Option<Vec<u8>>,
    ask: Option<Vec<u8>>,
    vcek: Option<Vec<u8>>,
    vlek: Option<Vec<u8>>,
    crl: Option<Vec<u8>>,
    other: Option<Vec<u8>>,
}

/// The contents of an optional byte vector.
pub open spec fn opt_view(o: Option<Vec<u8>>) -> Option<Seq<u8>> {
    match o {
        Some(v) => Some(v@),
        None => None,
    }
}

impl CertMap {
    /// The certificate filed under `t`, if any.
    pub closed spec fn spec_get(&self, t: CertType) -> Option<Seq<u8>> {
        match t {
            CertType::Empty => opt_view(self.empty),
            CertType::ARK => opt_view(self.ark),
            CertType::ASK => opt_view(self.ask),
            CertType::VCEK => opt_view(self.vcek),
            CertType::VLEK => opt_view(self.vlek),
            CertType::CRL => opt_view(self.crl),
            CertType::OTHER => opt_view(self.other),
        }
    }

    /// A map with no certificates.
    pub fn new() -> (r: CertMap)
        ensures
            forall|t: CertType| #[trigger] r.spec_get(t) is None,
    {
        CertMap {
            empty: None,
            ark: None,
            ask: None,
            vcek: None,
            vlek: None,
            crl: None,
            other: None,
        }
    }

    /// Files `data` under `t`, in place of what was filed there.
    pub fn insert(&mut self, t: CertType, data: Vec<u8>)
        ensures
            final(self).spec_get(t) == Some(data@),
            forall|u: CertType| u != t ==> #[trigger] final(self).spec_get(u) == old(self).spec_get(u),
    {
        match t {
            CertType::Empty => self.empty = Some(data),
            CertType::ARK => self.ark = Some(data),
            CertType::ASK => self.ask = Some(data),
            CertType::VCEK => self.vcek = Some(data),
            CertType::VLEK => self.vlek = Some(data),
            CertType::CRL => self.crl = Some(data),
            CertType::OTHER => self.other = Some(data),
        }
    }

    /// The certificate filed under `t`, if any.
    pub fn get(&self, t: CertType) -> (r: Option<&Vec<u8>>)
        ensures
            match r {
                Some(v) => self.spec_get(t) == Some(v@),
                None => self.spec_get(t) is None,
            },
    {
        match t {
            CertType::Empty => self.empty.as_ref(),
            CertType::ARK => self.ark.as_ref(),
            CertType::ASK => self.ask.as_ref(),
            CertType::VCEK => self.vcek.as_ref(),
            CertType::VLEK => self.vlek.as_ref(),
            CertType::CRL => self.crl.as_ref(),
            CertType::OTHER => self.other.as_ref(),
        }
    }

    /// Whether a certificate is filed under `t`.
    pub fn contains_key(&self, t: CertType) -> (r: bool)
        ensures
            r == self.spec_get(t) is Some,
    {
        self.get(t).is_some()
    }

    /// Which certificates the map holds, as the attestation workflows ask.
    pub fn keys(&self) -> (r: CertKeys)
        ensures
            r.vcek == self.spec_get(CertType::VCEK) is Some,
            r.ark == self.spec_get(CertType::ARK) is Some,
            r.ask == self.spec_get(CertType::ASK) is Some,
            r.vlek == self.spec_get(CertType::VLEK) is Some,
    {
        CertKeys {
            vcek: self.contains_key(CertType::VCEK),
            ark: self.contains_key(CertType::ARK),
            ask: self.contains_key(CertType::ASK),
            vlek: self.contains_key(CertType::VLEK),
        }
    }
}

/// Which certificates a host's certificate map holds, of those the attestation
/// workflows ask for.
#[derive(Debug, Clone, Copy)]
pub struct CertKeys {
    pub vcek: bool,
    pub ark: bool,
    pub ask: bool,
    pub vlek: bool,
}

/// The data of the last entry of kind `t` in `entries`, if any.
pub open spec fn last_entry_of(entries: Seq<CertTableEntry>, t: CertType) -> Option<Seq<u8>>
    decreases entries.len(),
{
    if entries.len() == 0 {
        None
    } else if entries.last().cert_type == t {
        Some(entries.last().data@)
    } else {
        last_entry_of(entries.drop_last(), t)
    }
}

/// Files a host's certificate table by kind: each kind gets the data of its last
/// entry in the table.
pub fn cert_map_from_entries(entries: Vec<CertTableEntry>) -> (r: CertMap)
    ensures
        forall|t: CertType| #[trigger] r.spec_get(t) == last_entry_of(entries@, t),
{
    let ghost all = entries@;
    let mut map = CertMap::new();
    let mut rest = entries;
    let ghost mut taken: Seq<CertTableEntry> = Seq::empty();
    let n = rest.len();
    let mut i: usize = 0;
    while i < n
        invariant
            n == all.len(),
            i <= n,
            rest@ == all.skip(i as int),
            taken == all.take(i as int),
            forall|t: CertType| #[trigger] map.spec_get(t) == last_entry_of(taken, t),
        decreases n - i,
    {
        let e = rest.remove(0);
        proof {
            assert(e == all[i as int]);
            assert(all.skip(i + 1) =~= all.skip(i as int).remove(0));
            assert(all.take(i + 1).drop_last() =~= all.take(i as int));
            taken = all.take(i + 1);
        }
        let t = e.cert_type;
        map.insert(t, e.data);
        i = i + 1;
    }
    assert(taken =~= all);
    map
}

/// The VEK certificate among a report's certificates: the VLEK where one is
/// filed, else the VCEK.
pub fn vek_cert(certs: &CertMap) -> (r: Option<&Vec<u8>>)
    ensures
        match r {
            Some(v) => Some(v@) == (if certs.spec_get(CertType::VLEK) is Some {
                certs.spec_get(CertType::VLEK)
            } else {
                certs.spec_get(CertType::VCEK)
            }),
            None => certs.spec_get(CertType::VLEK) is None && certs.spec_get(CertType::VCEK) is None,
        },
{
    if certs.contains_key(CertType::VLEK) {
        certs.get(CertType::VLEK)
    } else {
        certs.get(CertType::VCEK)
    }
}

/// The host's certificate table, where the host loaded one.
pub fn certificates_or_error(certificates: Option<Vec<CertTableEntry>>) -> (r: Result<
    Vec<CertTableEntry>,
    SevSnpError,
>)
    ensures
        match certificates {
            Some(c) => r matches Ok(v) && v@ == c@,
            None => r == Err::<Vec<CertTableEntry>, SevSnpError>(SevSnpError::NoCertificatesLoaded),
        },
{
    match certificates {
        Some(c) => Ok(c),
        None => Err(SevSnpError::NoCertificatesLoaded),
    }
}

/// Get certificates (as raw DER) from the host's certificate table, filed by
/// kind; an error where the host loaded none.
pub fn get_certificates_der(certificates: Option<Vec<CertTableEntry>>) -> (r: Result<
    CertMap,
    SevSnpError,
>)
    ensures
        match certificates {
            Some(c) => r matches Ok(m) && forall|t: CertType| #[trigger] m.spec_get(t)
                == last_entry_of(c@, t),
            None => r == Err::<CertMap, SevSnpError>(SevSnpError::NoCertificatesLoaded),
        },
{
    let table = certificates_or_error(certificates)?;
    Ok(cert_map_from_entries(table))
}

/// Settings for asking the SEV-SNP device for an attestation report.
#[derive(Debug, Clone, Copy)]
pub struct DeviceOptions {
    /// 64 bytes of user-defined data to use for the request.
    /// Only applicable for KVM. For HyperV, the the platform provides the data.
    /// Defaults to randomly generating 64 bytes.
    pub report_data: Option<[u8; 64]>,
    /// VMPL level that the Guest is running on. It is a number between 0 to 3.
    /// Defaults to 0 for kvm and 0 for Hyper-V.
    pub vmpl: Option<u32>,
}

/// How the device is asked for a report.
#[derive(Debug, Clone, Copy)]
pub enum ReportRequest {
    /// Read the report that Hyper-V keeps in the vTPM (at VMPL 0).
    HyperV,
    /// Ask /dev/sev-guest for a report over this data at this VMPL.
    Kvm { report_data: [u8; 64], vmpl: u32 },
}

/// Functions related to retrieving SEV-SNP data from a hardware device will go in here.
#[derive(Debug, Clone, Copy)]
pub struct Device {
    options: DeviceOptions,
    is_hyperv: bool,
}

impl Device {
    pub closed spec fn spec_options(&self) -> DeviceOptions {
        self.options
    }

    pub closed spec fn spec_is_hyperv(&self) -> bool {
        self.is_hyperv
    }

    /// Initialise SEV device with default options
    pub fn default(is_hyperv: bool) -> (r: Device)
        ensures
            r.spec_options().report_data is None,
            r.spec_options().vmpl is None,
            r.spec_is_hyperv() == is_hyperv,
    {
        let options = DeviceOptions { report_data: None, vmpl: None };
        Device { options, is_hyperv }
    }

    /// Initialise SEV device with custom options
    pub fn new(options: DeviceOptions, is_hyperv: bool) -> (r: Device)
        ensures
            r.spec_options() == options,
            r.spec_is_hyperv() == is_hyperv,
    {
        Device { options, is_hyperv }
    }

    /// How to ask for an attestation report. On Hyper-V user data is refused and
    /// only VMPL 0 is served; on KVM the report is over the user data, or else
    /// over `random_data`, at the given VMPL (default 0).
    pub fn report_request(&self, random_data: [u8; 64]) -> (r: Result<ReportRequest, SevSnpError>)
        ensures
            self.spec_is_hyperv() ==> r == (if self.spec_options().report_data is Some {
                Err::<ReportRequest, SevSnpError>(SevSnpError::ReportDataOnAzure)
            } else if self.spec_options().vmpl matches Some(v) && v > 0 {
                Err(SevSnpError::AzureNeedsVmpl0)
            } else {
                Ok(ReportRequest::HyperV)
            }),
            !self.spec_is_hyperv() ==> r == Ok::<ReportRequest, SevSnpError>(
                ReportRequest::Kvm {
                    report_data: match self.spec_options().report_data {
                        Some(d) => d,
                        None => random_data,
                    },
                    vmpl: match self.spec_options().vmpl {
                        Some(v) => v,
                        None => 0,
                    },
                },
            ),
    {
        let vmpl = match self.options.vmpl {
            Some(v) => v,
            None => 0,
        };
        if self.is_hyperv {
            if self.options.report_data.is_some() {
                return Err(SevSnpError::ReportDataOnAzure);
            }
            if vmpl > 0 {
                return Err(SevSnpError::AzureNeedsVmpl0);
            }
            Ok(ReportRequest::HyperV)
        } else {
            let report_data = match self.options.report_data {
                Some(d) => d,
                None => random_data,
            };
            Ok(ReportRequest::Kvm { report_data, vmpl })
        }
    }

    /// Whether certificates can be fetched from the device: not on Hyper-V.
    pub fn certificates_available(&self) -> (r: Result<(), SevSnpError>)
        ensures
            r == (if self.spec_is_hyperv() {
                Err::<(), SevSnpError>(SevSnpError::HyperVCertificates)
            } else {
                Ok(())
            }),
    {
        if self.is_hyperv {
            Err(SevSnpError::HyperVCertificates)
        } else {
            Ok(())
        }
    }

    /// Retrieve certificates (as raw DER) from the device, given the host's
    /// certificate table as the device handed it out (`None` where the host
    /// loaded none): refused on Hyper-V, else filed by kind.
    pub fn get_certificates_der(&self, table: Option<Vec<CertTableEntry>>) -> (r: Result<
        CertMap,
        SevSnpError,
    >)
        ensures
            self.spec_is_hyperv() ==> r == Err::<CertMap, SevSnpError>(
                SevSnpError::HyperVCertificates,
            ),
            !self.spec_is_hyperv() ==> match table {
                Some(c) => r matches Ok(m) && forall|t: CertType| #[trigger] m.spec_get(t)
                    == last_entry_of(c@, t),
                None => r == Err::<CertMap, SevSnpError>(SevSnpError::NoCertificatesLoaded),
            },
    {
        self.certificates_available()?;
        get_certificates_der(table)
    }
}

/// The workflow that verifies an attestation report.
#[derive(Debug, Clone, Copy, PartialEq, Eq, Structural)]
pub enum Workflow {
    /// All certificates from the AMD Key Distribution Service.
    Regular,
    /// All certificates from the host device (VCEK, ARK and ASK).
    Extended,
    /// The VLEK from the host device, the CA certificates from the KDS.
    Vlek,
}

/// Where the certificates for a report come from.
#[derive(Debug, Clone, Copy, PartialEq, Eq, Structural)]
pub struct CertPlan {
    /// Start from the host device's certificates.
    pub from_device: bool,
    /// Fetch the report's VCEK from the KDS.
    pub kds_vcek: bool,
    /// Fetch the CA certificates (ASK, ARK) for this key kind from the KDS.
    pub kds_ca: Option<CertType>,
}

/// SEV-SNP attestation: the platform and the device that serves certificates.
#[derive(Debug, Clone, Copy)]
pub struct SevSnp {
    is_hyperv: bool,
    cert_device: Device,
}

impl SevSnp {
    pub closed spec fn spec_is_hyperv(&self) -> bool {
        self.is_hyperv
    }

    /// The device that serves certificates.
    pub closed spec fn spec_cert_device(&self) -> Device {
        self.cert_device
    }

    /// Attestation on a platform that is, or is not, Hyper-V.
    pub fn new(is_hyperv: bool) -> (r: SevSnp)
        ensures
            r.spec_is_hyperv() == is_hyperv,
            r.spec_cert_device().spec_is_hyperv() == is_hyperv,
            r.spec_cert_device().spec_options().report_data is None,
            r.spec_cert_device().spec_options().vmpl is None,
    {
        // Device options does not matter when only retrieving certs from it.
        let cert_device = Device::default(is_hyperv);
        SevSnp { is_hyperv, cert_device }
    }

    /// The device that serves certificates.
    pub fn cert_device(&self) -> (r: &Device)
        ensures
            *r == self.spec_cert_device(),
    {
        &self.cert_device
    }

    /// Where the certificates for a report signed by `signer` come from under
    /// `flow`: VLEK-signed reports need the VLEK flow and take the device's
    /// certificates, with the CA certificates from the KDS unless `vek_only`;
    /// other reports refuse the VLEK flow, refuse the extended flow on Hyper-V,
    /// take the VCEK (and, unless `vek_only`, the CA certificates) from the KDS
    /// under the regular flow, and the device's certificates under the extended flow.
    pub fn certificate_plan(&self, signer: CertType, flow: AttestationFlow, vek_only: bool) -> (r:
        Result<CertPlan, SevSnpError>)
        ensures
            signer == CertType::VLEK ==> r == (if flow != AttestationFlow::Vlek {
                Err::<CertPlan, SevSnpError>(SevSnpError::VlekFlowRequired)
            } else {
                Ok(
                    CertPlan {
                        from_device: true,
                        kds_vcek: false,
                        kds_ca: if vek_only {
                            None
                        } else {
                            Some(CertType::VLEK)
                        },
                    },
                )
            }),
            signer != CertType::VLEK ==> r == (if flow == AttestationFlow::Vlek {
                Err::<CertPlan, SevSnpError>(SevSnpError::VlekFlowOnlyForVlek)
            } else if flow == AttestationFlow::Extended && self.spec_is_hyperv() {
                Err(SevSnpError::ExtendedFlowOnHyperV)
            } else if flow == AttestationFlow::Regular {
                Ok(
                    CertPlan {
                        from_device: false,
                        kds_vcek: true,
                        kds_ca: if vek_only {
                            None
                        } else {
                            Some(CertType::VCEK)
                        },
                    },
                )
            } else {
                Ok(CertPlan { from_device: true, kds_vcek: false, kds_ca: None })
            }),
    {
        if signer == CertType::VLEK {
            if flow != AttestationFlow::Vlek {
                return Err(SevSnpError::VlekFlowRequired);
            }
            let kds_ca = if vek_only {
                None
            } else {
                Some(CertType::VLEK)
            };
            Ok(CertPlan { from_device: true, kds_vcek: false, kds_ca })
        } else {
            if flow == AttestationFlow::Vlek {
                return Err(SevSnpError::VlekFlowOnlyForVlek);
            } else if flow == AttestationFlow::Extended && self.is_hyperv {
                return Err(SevSnpError::ExtendedFlowOnHyperV);
            }
            if flow == AttestationFlow::Regular {
                let kds_ca = if vek_only {
                    None
                } else {
                    Some(CertType::VCEK)
                };
                return Ok(CertPlan { from_device: false, kds_vcek: true, kds_ca });
            }
            Ok(CertPlan { from_device: true, kds_vcek: false, kds_ca: None })
        }
    }

    /// Which workflow verifies a report signed by `signer` under `flow`. On
    /// Hyper-V only the regular flow is served; elsewhere `device_certs` tells
    /// which certificates the host device holds: the regular and extended flows
    /// need a VCEK-signed report, the extended flow also the device's VCEK, ARK
    /// and ASK, the VLEK flow a VLEK-signed report and the device's VLEK.
    pub fn attestation_workflow(
        &self,
        signer: CertType,
        flow: AttestationFlow,
        device_certs: Option<CertKeys>,
    ) -> (r: Result<Workflow, SevSnpError>)
        requires
            !self.spec_is_hyperv() ==> device_certs is Some,
        ensures
            self.spec_is_hyperv() ==> r == (if flow != AttestationFlow::Regular {
                Err::<Workflow, SevSnpError>(SevSnpError::OnlyRegularFlowOnHyperV)
            } else {
                Ok(Workflow::Regular)
            }),
            !self.spec_is_hyperv() ==> r == ({
                let keys = device_certs.unwrap();
                match flow {
                    AttestationFlow::Regular => if signer != CertType::VCEK {
                        Err::<Workflow, SevSnpError>(SevSnpError::RegularFlowNeedsVcek)
                    } else {
                        Ok(Workflow::Regular)
                    },
                    AttestationFlow::Extended => if signer != CertType::VCEK {
                        Err::<Workflow, SevSnpError>(SevSnpError::ExtendedFlowNeedsVcek)
                    } else if !(keys.vcek && keys.ark && keys.ask) {
                        Err(SevSnpError::MissingVcekArkAsk)
                    } else {
                        Ok(Workflow::Extended)
                    },
                    AttestationFlow::Vlek => if signer != CertType::VLEK {
                        Err::<Workflow, SevSnpError>(SevSnpError::VlekFlowNeedsVlek)
                    } else if !keys.vlek {
                        Err(SevSnpError::MissingVlek)
                    } else {
                        Ok(Workflow::Vlek)
                    },
                }
            }),
    {
        if self.is_hyperv {
            // When running on HyperV, only the regular attestation workflow is supported.
            if flow != AttestationFlow::Regular {
                return Err(SevSnpError::OnlyRegularFlowOnHyperV);
            }
            return Ok(Workflow::Regular);
        }
        let keys = device_certs.unwrap();
        match flow {
            AttestationFlow::Regular => {
                if signer != CertType::VCEK {
                    return Err(SevSnpError::RegularFlowNeedsVcek);
                }
                Ok(Workflow::Regular)
            },
            AttestationFlow::Extended => {
                if signer != CertType::VCEK {
                    return Err(SevSnpError::ExtendedFlowNeedsVcek);
                }
                if !(keys.vcek && keys.ark && keys.ask) {
                    return Err(SevSnpError::MissingVcekArkAsk);
                }
                Ok(Workflow::Extended)
            },
            AttestationFlow::Vlek => {
                if signer != CertType::VLEK {
                    return Err(SevSnpError::VlekFlowNeedsVlek);
                }
                if !keys.vlek {
                    return Err(SevSnpError::MissingVlek);
                }
                Ok(Workflow::Vlek)
            },
        }
    }
}

/// Puts together the certificates that a plan fetched: the device's
/// certificates (or none), then the VCEK, then the CA certificates as the KDS
/// lists them (ASK first, then ARK), each in place of what was filed before.
pub fn assemble_certificates(
    device: Option<CertMap>,
    vcek: Option<Vec<u8>>,
    ca: Option<Vec<Vec<u8>>>,
) -> (r: CertMap)
    requires
        ca matches Some(c) ==> c@.len() >= 2,
    ensures
        forall|t: CertType|
            #[trigger] r.spec_get(t) == (if t == CertType::ARK && ca is Some {
                Some(ca.unwrap()@[1]@)
            } else if t == CertType::ASK && ca is Some {
                Some(ca.unwrap()@[0]@)
            } else if t == CertType::VCEK && vcek is Some {
                Some(vcek.unwrap()@)
            } else {
                match device {
                    Some(m) => m.spec_get(t),
                    None => None,
                }
            }),
{
    let mut map = match device {
        Some(m) => m,
        None => CertMap::new(),
    };
    if let Some(cert) = vcek {
        map.insert(CertType::VCEK, cert);
    }
    if let Some(mut c) = ca {
        let ark = c.remove(1);
        let ask = c.remove(0);
        map.insert(CertType::ARK, ark);
        map.insert(CertType::ASK, ask);
    }
    map
}

} // verus!
