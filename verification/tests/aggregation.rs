use stark_vm_core::aggregation::{
    clamp_degree, AggStarkConfig, FriParameters, InternalVmVerifierExtraPvs,
    InternalVmVerifierPvs, MemoryMerklePvs, NativeConfig, VmConnectorPvs, VmVerifierPvs,
    CONNECTOR_PVS_WIDTH, DIGEST_SIZE, SBOX_SIZE,
};

fn digest(first: u32) -> [u32; DIGEST_SIZE] {
    let mut values = [0; DIGEST_SIZE];
    for (i, value) in values.iter_mut().enumerate() {
        *value = first + i as u32;
    }
    values
}

fn leaf_record() -> VmVerifierPvs<u32> {
    VmVerifierPvs {
        app_commit: digest(100),
        connector: VmConnectorPvs { initial_pc: 1, final_pc: 2, exit_code: 3, is_terminate: 4 },
        memory: MemoryMerklePvs { initial_root: digest(200), final_root: digest(300) },
        public_values_commit: digest(400),
    }
}

fn config(leaf: usize, internal: usize, root: usize, user: usize, profiling: bool) -> AggStarkConfig {
    AggStarkConfig {
        leaf_fri_params: FriParameters { max_constraint_degree: leaf },
        internal_fri_params: FriParameters { max_constraint_degree: internal },
        root_fri_params: FriParameters { max_constraint_degree: root },
        max_num_user_public_values: user,
        profiling,
    }
}

#[test]
fn constants_of_the_protocol() {
    assert_eq!(SBOX_SIZE, 7);
    assert_eq!(DIGEST_SIZE, 8);
    assert_eq!(CONNECTOR_PVS_WIDTH, 4);
}

#[test]
fn fri_parameters_give_their_degree() {
    assert_eq!(FriParameters { max_constraint_degree: 5 }.max_constraint_degree(), 5);
}

#[test]
fn aggregation_config_has_profiling_off() {
    assert_eq!(
        NativeConfig::aggregation(36, 3),
        NativeConfig { num_public_values: 36, max_constraint_degree: 3, profiling: false }
    );
}

#[test]
fn record_widths() {
    assert_eq!(VmVerifierPvs::<u8>::width(), 36);
    assert_eq!(InternalVmVerifierPvs::<u8>::width(), 52);
    assert_eq!(InternalVmVerifierPvs::<u8>::width(), VmVerifierPvs::<u8>::width() + 2 * DIGEST_SIZE);
}

#[test]
fn degree_three_stays_three() {
    assert_eq!(clamp_degree(3), 3);
    assert_eq!(config(3, 3, 3, 0, false).leaf_vm_config().max_constraint_degree, 3);
    assert_eq!(config(3, 3, 3, 0, false).internal_vm_config().max_constraint_degree, 3);
    assert_eq!(config(3, 3, 3, 0, false).root_verifier_vm_config().max_constraint_degree, 3);
}

#[test]
fn degree_hundred_is_clamped_to_seven() {
    assert_eq!(clamp_degree(100), 7);
    assert_eq!(config(100, 100, 100, 0, false).leaf_vm_config().max_constraint_degree, 7);
    assert_eq!(config(100, 100, 100, 0, false).internal_vm_config().max_constraint_degree, 7);
    assert_eq!(config(100, 100, 100, 0, false).root_verifier_vm_config().max_constraint_degree, 7);
}

#[test]
fn clamp_at_and_around_the_cap() {
    assert_eq!(clamp_degree(0), 0);
    assert_eq!(clamp_degree(1), 1);
    assert_eq!(clamp_degree(6), 6);
    assert_eq!(clamp_degree(7), 7);
    assert_eq!(clamp_degree(8), 7);
    assert_eq!(clamp_degree(usize::MAX), 7);
}

#[test]
fn a_degree_of_zero_still_gives_a_configuration() {
    let derived = config(0, 0, 0, 4, true).leaf_vm_config();
    assert_eq!(
        derived,
        NativeConfig { num_public_values: 36, max_constraint_degree: 0, profiling: true }
    );
}

#[test]
fn each_stage_uses_its_own_parameters() {
    let agg = config(2, 5, 9, 16, false);
    assert_eq!(
        agg.leaf_vm_config(),
        NativeConfig { num_public_values: 36, max_constraint_degree: 2, profiling: false }
    );
    assert_eq!(
        agg.internal_vm_config(),
        NativeConfig { num_public_values: 52, max_constraint_degree: 5, profiling: false }
    );
    assert_eq!(
        agg.root_verifier_vm_config(),
        NativeConfig { num_public_values: 32, max_constraint_degree: 7, profiling: false }
    );
}

#[test]
fn stage_widths_match_their_records() {
    let agg = config(3, 5, 9, 25, false);
    assert_eq!(agg.leaf_vm_config().num_public_values, VmVerifierPvs::<u8>::width());
    assert_eq!(agg.internal_vm_config().num_public_values, InternalVmVerifierPvs::<u8>::width());
    assert_eq!(agg.root_verifier_vm_config().num_public_values, 2 * DIGEST_SIZE + 25);
    assert_eq!(agg.root_verifier_vm_config().num_public_values, 41);
}

#[test]
fn root_width_without_user_values_is_two_digests() {
    assert_eq!(config(3, 3, 3, 0, false).root_verifier_vm_config().num_public_values, 16);
}

#[test]
fn profiling_is_copied_to_every_stage() {
    for profiling in [false, true] {
        let agg = config(3, 3, 3, 8, profiling);
        assert_eq!(agg.leaf_vm_config().profiling, profiling);
        assert_eq!(agg.internal_vm_config().profiling, profiling);
        assert_eq!(agg.root_verifier_vm_config().profiling, profiling);
    }
}

#[test]
fn profiling_changes_nothing_else() {
    let off = config(4, 6, 8, 8, false);
    let on = config(4, 6, 8, 8, true);
    assert_eq!(off.leaf_vm_config().num_public_values, on.leaf_vm_config().num_public_values);
    assert_eq!(
        off.leaf_vm_config().max_constraint_degree,
        on.leaf_vm_config().max_constraint_degree
    );
    assert_eq!(
        off.root_verifier_vm_config().num_public_values,
        on.root_verifier_vm_config().num_public_values
    );
}

#[test]
fn deriving_twice_gives_the_same_configuration() {
    let agg = config(3, 100, 7, 12, true);
    assert_eq!(agg.leaf_vm_config(), agg.leaf_vm_config());
    assert_eq!(agg.internal_vm_config(), agg.internal_vm_config());
    assert_eq!(agg.root_verifier_vm_config(), agg.root_verifier_vm_config());
    let copy = agg;
    assert_eq!(agg.leaf_vm_config(), copy.leaf_vm_config());
    assert_eq!(agg, copy);
}

#[test]
fn leaf_record_flattens_in_the_order_of_its_fields() {
    let flat = leaf_record().flatten();
    assert_eq!(flat.len(), VmVerifierPvs::<u32>::width());
    assert_eq!(flat.len(), 36);
    let mut expected: Vec<u32> = (100..108).collect();
    expected.extend([1, 2, 3, 4]);
    expected.extend(200..208);
    expected.extend(300..308);
    expected.extend(400..408);
    assert_eq!(flat, expected);
}

#[test]
fn internal_record_flattens_to_the_leaf_record_and_two_digests() {
    let record = InternalVmVerifierPvs {
        vm_verifier_pvs: leaf_record(),
        extra_pvs: InternalVmVerifierExtraPvs {
            internal_program_commit: digest(500),
            leaf_verifier_commit: digest(600),
        },
    };
    let flat = record.flatten();
    assert_eq!(flat.len(), InternalVmVerifierPvs::<u32>::width());
    assert_eq!(flat.len(), 52);
    assert_eq!(flat[..36], leaf_record().flatten()[..]);
    assert_eq!(flat[36..44], digest(500));
    assert_eq!(flat[44..], digest(600));
}
