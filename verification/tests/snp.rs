use snp_attestation::snp::{
    assemble_certificates, cert_map_from_entries, default_flow, get_certificates_der,
    get_cpu_codename, get_processor_codename, get_signer_type, str_contains, AttestationFlow,
    CertMap, CertTableEntry, CertType, CertTypeExt, Device, DeviceOptions, ProcType,
    ReportRequest, SevSnp, SevSnpError, Workflow, KEY_INFO_OFFSET, vek_cert,
};

fn entry(t: CertType, b: u8) -> CertTableEntry {
    CertTableEntry { cert_type: t, data: vec![b] }
}

#[test]
fn proc_type_names_and_kds_urls() {
    assert_eq!(ProcType::Milan.name(), "Milan");
    assert_eq!(ProcType::Siena.name(), "Siena");
    assert_eq!(ProcType::Genoa.to_kds_url(), "Genoa");
    assert_eq!(ProcType::Bergamo.to_kds_url(), "Genoa");
    assert_eq!(ProcType::Siena.to_kds_url(), "Genoa");
    assert_eq!(ProcType::Milan.to_kds_url(), "Milan");
}

#[test]
fn processor_codename_from_the_cpu_brand() {
    assert_eq!(get_processor_codename("AMD EPYC 7R13 Processor").unwrap(), ProcType::Milan);
    assert_eq!(get_processor_codename("AMD EPYC 7B13 64-Core Processor").unwrap(), ProcType::Milan);
    assert_eq!(get_processor_codename("family 19/01").unwrap(), ProcType::Milan);
    match get_processor_codename("AMD EPYC 9R14") {
        Err(SevSnpError::UnhandledCpu { brand }) => assert_eq!(brand, "AMD EPYC 9R14"),
        _ => panic!("expected an unhandled CPU"),
    }
    assert!(str_contains("abc", ""));
    assert!(!str_contains("ab", "abc"));
}

#[test]
fn cert_type_names() {
    assert_eq!(CertType::VCEK.string(), "VCEK");
    assert_eq!(CertType::ARK.string(), "ARK");
    assert_eq!(CertType::OTHER.string(), "OTHER");
}

#[test]
fn signer_type_from_key_info() {
    let mut report = vec![0u8; 0x4a0];
    assert_eq!(get_signer_type(&report).unwrap(), CertType::VCEK);
    report[KEY_INFO_OFFSET] = 0b0000_0100;
    assert_eq!(get_signer_type(&report).unwrap(), CertType::VLEK);
    report[KEY_INFO_OFFSET] = 0b0000_0111;
    assert_eq!(get_signer_type(&report).unwrap(), CertType::VLEK);
    report[KEY_INFO_OFFSET] = 0b0001_1100;
    assert!(matches!(get_signer_type(&report), Err(SevSnpError::UnknownSigner)));
    assert_eq!(get_cpu_codename(2, &report), ProcType::Milan);
    assert_eq!(get_cpu_codename(3, &report), ProcType::Milan);
}

#[test]
fn flows() {
    assert_eq!(default_flow(CertType::VLEK), AttestationFlow::Vlek);
    assert_eq!(default_flow(CertType::VCEK), AttestationFlow::Regular);
}

#[test]
fn certificate_table_is_filed_by_kind_last_wins() {
    let map = cert_map_from_entries(vec![
        entry(CertType::ARK, 1),
        entry(CertType::VCEK, 2),
        entry(CertType::ARK, 3),
    ]);
    assert_eq!(map.get(CertType::ARK), Some(&vec![3]));
    assert_eq!(map.get(CertType::VCEK), Some(&vec![2]));
    assert!(!map.contains_key(CertType::ASK));
    let keys = map.keys();
    assert!(keys.vcek && keys.ark && !keys.ask && !keys.vlek);
    assert!(matches!(get_certificates_der(None), Err(SevSnpError::NoCertificatesLoaded)));
    let m = get_certificates_der(Some(vec![entry(CertType::VLEK, 9)])).unwrap();
    assert_eq!(m.get(CertType::VLEK), Some(&vec![9]));
}

#[test]
fn cert_map_insert_replaces() {
    let mut m = CertMap::new();
    assert!(m.get(CertType::CRL).is_none());
    m.insert(CertType::CRL, vec![1]);
    m.insert(CertType::CRL, vec![2]);
    assert_eq!(m.get(CertType::CRL), Some(&vec![2]));
}

#[test]
fn device_report_requests() {
    let kvm = Device::default(false);
    match kvm.report_request([7; 64]).unwrap() {
        ReportRequest::Kvm { report_data, vmpl } => {
            assert_eq!(report_data, [7; 64]);
            assert_eq!(vmpl, 0);
        }
        _ => panic!("expected a KVM request"),
    }
    let custom = Device::new(DeviceOptions { report_data: Some([1; 64]), vmpl: Some(2) }, false);
    match custom.report_request([7; 64]).unwrap() {
        ReportRequest::Kvm { report_data, vmpl } => {
            assert_eq!(report_data, [1; 64]);
            assert_eq!(vmpl, 2);
        }
        _ => panic!("expected a KVM request"),
    }
    assert!(matches!(Device::default(true).report_request([0; 64]), Ok(ReportRequest::HyperV)));
    let azure_data = Device::new(DeviceOptions { report_data: Some([1; 64]), vmpl: None }, true);
    assert!(matches!(azure_data.report_request([0; 64]), Err(SevSnpError::ReportDataOnAzure)));
    let azure_vmpl = Device::new(DeviceOptions { report_data: None, vmpl: Some(1) }, true);
    assert!(matches!(azure_vmpl.report_request([0; 64]), Err(SevSnpError::AzureNeedsVmpl0)));
}

#[test]
fn device_certificates() {
    assert!(matches!(
        Device::default(true).get_certificates_der(Some(vec![entry(CertType::ARK, 1)])),
        Err(SevSnpError::HyperVCertificates)
    ));
    let m = Device::default(false).get_certificates_der(Some(vec![entry(CertType::ARK, 1)])).unwrap();
    assert_eq!(m.get(CertType::ARK), Some(&vec![1]));
    assert!(matches!(Device::default(false).get_certificates_der(None), Err(SevSnpError::NoCertificatesLoaded)));
}

#[test]
fn certificate_plans() {
    let kvm = SevSnp::new(false);
    let plan = kvm.certificate_plan(CertType::VCEK, AttestationFlow::Regular, false).unwrap();
    assert!(!plan.from_device && plan.kds_vcek && plan.kds_ca == Some(CertType::VCEK));
    let plan = kvm.certificate_plan(CertType::VLEK, AttestationFlow::Vlek, true).unwrap();
    assert!(plan.from_device && !plan.kds_vcek && plan.kds_ca.is_none());
    assert!(matches!(kvm.certificate_plan(CertType::VLEK, AttestationFlow::Regular, false), Err(SevSnpError::VlekFlowRequired)));
    assert!(matches!(kvm.certificate_plan(CertType::VCEK, AttestationFlow::Vlek, false), Err(SevSnpError::VlekFlowOnlyForVlek)));
    let azure = SevSnp::new(true);
    assert!(matches!(azure.certificate_plan(CertType::VCEK, AttestationFlow::Extended, false), Err(SevSnpError::ExtendedFlowOnHyperV)));
    let plan = kvm.certificate_plan(CertType::VCEK, AttestationFlow::Extended, false).unwrap();
    assert!(plan.from_device && !plan.kds_vcek && plan.kds_ca.is_none());
}

#[test]
fn attestation_workflows() {
    let azure = SevSnp::new(true);
    assert_eq!(azure.attestation_workflow(CertType::VCEK, AttestationFlow::Regular, None).unwrap(), Workflow::Regular);
    assert!(matches!(azure.attestation_workflow(CertType::VCEK, AttestationFlow::Extended, None), Err(SevSnpError::OnlyRegularFlowOnHyperV)));
    let kvm = SevSnp::new(false);
    let all = cert_map_from_entries(vec![entry(CertType::VCEK, 1), entry(CertType::ARK, 2), entry(CertType::ASK, 3)]).keys();
    assert_eq!(kvm.attestation_workflow(CertType::VCEK, AttestationFlow::Extended, Some(all)).unwrap(), Workflow::Extended);
    let none = CertMap::new().keys();
    assert!(matches!(kvm.attestation_workflow(CertType::VCEK, AttestationFlow::Extended, Some(none)), Err(SevSnpError::MissingVcekArkAsk)));
    assert!(matches!(kvm.attestation_workflow(CertType::VCEK, AttestationFlow::Vlek, Some(none)), Err(SevSnpError::VlekFlowNeedsVlek)));
    assert!(matches!(kvm.attestation_workflow(CertType::VLEK, AttestationFlow::Vlek, Some(none)), Err(SevSnpError::MissingVlek)));
    assert!(matches!(kvm.attestation_workflow(CertType::VLEK, AttestationFlow::Regular, Some(none)), Err(SevSnpError::RegularFlowNeedsVcek)));
    assert!(matches!(kvm.attestation_workflow(CertType::VLEK, AttestationFlow::Extended, Some(none)), Err(SevSnpError::ExtendedFlowNeedsVcek)));
}

#[test]
fn assembled_certificates() {
    let device = cert_map_from_entries(vec![entry(CertType::VLEK, 1), entry(CertType::ARK, 2)]);
    let m = assemble_certificates(Some(device), None, Some(vec![vec![10], vec![20]]));
    assert_eq!(m.get(CertType::VLEK), Some(&vec![1]));
    assert_eq!(m.get(CertType::ASK), Some(&vec![10]));
    assert_eq!(m.get(CertType::ARK), Some(&vec![20]));
    let m = assemble_certificates(None, Some(vec![5]), None);
    assert_eq!(m.get(CertType::VCEK), Some(&vec![5]));
    assert!(m.get(CertType::ARK).is_none());
}

#[test]
fn vek_certificate_prefers_the_vlek() {
    let both = cert_map_from_entries(vec![entry(CertType::VCEK, 1), entry(CertType::VLEK, 2)]);
    assert_eq!(vek_cert(&both), Some(&vec![2]));
    let vcek = cert_map_from_entries(vec![entry(CertType::VCEK, 1)]);
    assert_eq!(vek_cert(&vcek), Some(&vec![1]));
    assert_eq!(vek_cert(&CertMap::new()), None);
}
