use snp_attestation::stub::ZkCoProcessorType;
use snp_attestation::zkprover_cli::{
    check_variant_vm, program_id_b256, BackendArg, NetworkConfig, ProverArgs, ProverBackend, remote_program_variant, verifier_input_from_parts, zk_type,
    AttestationReportWithVekCertChain, ProgramId, RemoteProgramVariant, VmArg, ZkCliError,
    ZkVmSelection,
};

#[test]
fn vm_selection_and_co_processor() {
    assert_eq!(VmArg::Sp1.selection(), ZkVmSelection::Sp1);
    assert_eq!(VmArg::Risc0.selection(), ZkVmSelection::Risc0);
    assert_eq!(zk_type(VmArg::Sp1), ZkCoProcessorType::Succinct);
    assert_eq!(zk_type(VmArg::Risc0), ZkCoProcessorType::RiscZero);
}

#[test]
fn variant_vm_must_match() {
    assert!(check_variant_vm(ZkVmSelection::Sp1, ZkVmSelection::Sp1).is_ok());
    match check_variant_vm(ZkVmSelection::Risc0, ZkVmSelection::Sp1) {
        Err(ZkCliError::VariantVmMismatch { variant, requested }) => {
            assert_eq!(variant, ZkVmSelection::Risc0);
            assert_eq!(requested, ZkVmSelection::Sp1);
        }
        _ => panic!("expected a mismatch"),
    }
}

#[test]
fn verifier_input_reverses_the_chain() {
    let parts = AttestationReportWithVekCertChain {
        report: vec![1, 2],
        vek_certs: Some(vec![vec![1], vec![2], vec![3]]),
    };
    let v = verifier_input_from_parts(parts, 77);
    assert_eq!(v.timestamp, 77);
    assert_eq!(v.rawReport, vec![1, 2]);
    assert_eq!(v.vekDerChain, vec![vec![3], vec![2], vec![1]]);
    let v = verifier_input_from_parts(AttestationReportWithVekCertChain { report: vec![], vek_certs: None }, 0);
    assert!(v.vekDerChain.is_empty());
}

#[test]
fn program_ids_and_remote_variants() {
    assert_eq!(program_id_b256(ProgramId::Sp1 { vk_hash: [1; 32] }), [1; 32]);
    assert_eq!(program_id_b256(ProgramId::Risc0 { image_id: [2; 32] }), [2; 32]);
    match remote_program_variant(ProgramId::Sp1 { vk_hash: [1; 32] }) {
        Ok(RemoteProgramVariant::Sp1 { vk_hash }) => assert_eq!(vk_hash, [1; 32]),
        _ => panic!("expected an SP1 variant"),
    }
    assert!(matches!(
        remote_program_variant(ProgramId::Risc0 { image_id: [2; 32] }),
        Err(ZkCliError::ArtifactUriRequired)
    ));
}

fn prover_args(vm: VmArg, backend: BackendArg) -> ProverArgs {
    ProverArgs {
        vm,
        backend,
        sp1_private_key: Some("sp1key".to_string()),
        sp1_rpc_url: None,
        boundless_rpc_url: Some("https://rpc".to_string()),
        boundless_private_key: None,
        risc0_pinata_jwt: Some("jwt".to_string()),
    }
}

#[test]
fn prover_config_parse_outcomes() {
    let sp1 = prover_args(VmArg::Sp1, BackendArg::Network);
    assert!(matches!(sp1.prover_config(false, true), Err(ZkCliError::PrivateKeyParse)));
    // no SP1 URL is given, so its parse outcome does not matter
    match sp1.prover_config(true, false).unwrap().backend {
        ProverBackend::Network(NetworkConfig::Sp1 { private_key, rpc_url }) => {
            assert_eq!(private_key, Some("sp1key".to_string()));
            assert_eq!(rpc_url, None);
        }
        _ => panic!("expected the SP1 network"),
    }
    let r0 = prover_args(VmArg::Risc0, BackendArg::Network);
    assert!(matches!(r0.prover_config(true, false), Err(ZkCliError::RpcUrlParse)));
    match r0.prover_config(false, true).unwrap().backend {
        ProverBackend::Network(NetworkConfig::Risc0 { rpc_url, storage, .. }) => {
            assert_eq!(rpc_url, Some("https://rpc".to_string()));
            assert!(storage.is_some());
        }
        _ => panic!("expected the RISC0 network"),
    }
    let mock = prover_args(VmArg::Sp1, BackendArg::Mock);
    let c = mock.prover_config(false, false).unwrap();
    assert_eq!(c.vm, ZkVmSelection::Sp1);
    assert!(matches!(c.backend, ProverBackend::Mock));
    let cpu = prover_args(VmArg::Risc0, BackendArg::Cpu);
    assert!(matches!(cpu.prover_config(false, false).unwrap().backend, ProverBackend::Cpu));
}

#[test]
fn encodes_sp1_remote_program_variant_json() {
    let variant = remote_program_variant(ProgramId::Sp1 { vk_hash: [1; 32] }).unwrap();
    match variant {
        RemoteProgramVariant::Sp1 { vk_hash } => assert_eq!(vk_hash, [1; 32]),
    }
}

#[test]
fn rejects_risc0_remote_program_variant_json_without_artifact_uri() {
    let error = remote_program_variant(ProgramId::Risc0 { image_id: [2; 32] }).unwrap_err();
    assert!(error.message().contains("artifact_uri"));
}

#[test]
fn error_messages() {
    let e = check_variant_vm(ZkVmSelection::Risc0, ZkVmSelection::Sp1).unwrap_err();
    assert_eq!(e.message(), "Remote program variant VM Risc0 does not match --vm Sp1");
}
