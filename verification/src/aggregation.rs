//! The configurations with which each stage of aggregation verifies the
//! proofs of the stage below it.

use vstd::prelude::*;

verus! {

/// The highest constraint degree that a stage ever asks for.
pub const SBOX_SIZE: usize = 7;

/// The number of field values in one digest.
pub const DIGEST_SIZE: usize = 8;

/// The number of public values by which the connector links two segments:
/// first and last program counter, exit code, and the termination flag.
pub const CONNECTOR_PVS_WIDTH: usize = 4;

/// What a stage reads of its FRI parameters: the constraint degree that
/// they allow.
#[derive(Clone, Copy, Debug, PartialEq, Eq, Structural)]
pub struct FriParameters {
    pub max_constraint_degree: usize,
}

impl FriParameters {
    pub fn max_constraint_degree(&self) -> (degree: usize)
        ensures
            degree == self.max_constraint_degree,
    {
        self.max_constraint_degree
    }
}

/// The configuration of a virtual machine that verifies proofs.
#[derive(Clone, Copy, Debug, PartialEq, Eq, Structural)]
pub struct NativeConfig {
    pub num_public_values: usize,
    pub max_constraint_degree: usize,
    pub profiling: bool,
}

impl NativeConfig {
    /// The configuration of an aggregation stage, with profiling off.
    pub fn aggregation(num_public_values: usize, max_constraint_degree: usize) -> (config: Self)
        ensures
            config == (NativeConfig { num_public_values, max_constraint_degree, profiling: false }),
    {
        NativeConfig { num_public_values, max_constraint_degree, profiling: false }
    }
}

/// Appends the values of one digest to `out`.
fn push_digest<T: Copy>(out: &mut Vec<T>, digest: &[T; DIGEST_SIZE])
    ensures
        final(out)@ == old(out)@ + digest@,
{
    let mut i: usize = 0;
    while i < DIGEST_SIZE
        invariant
            i <= DIGEST_SIZE,
            out@ == old(out)@ + digest@.take(i as int),
        decreases DIGEST_SIZE - i,
    {
        out.push(digest[i]);
        assert(digest@.take(i + 1) =~= digest@.take(i as int).push(digest@[i as int]));
        i = i + 1;
    }
    assert(digest@.take(DIGEST_SIZE as int) =~= digest@);
}

/// The public values by which the connector links two segments.
#[derive(Clone, Copy, Debug, PartialEq, Eq)]
pub struct VmConnectorPvs<T> {
    pub initial_pc: T,
    pub final_pc: T,
    pub exit_code: T,
    pub is_terminate: T,
}

/// The memory roots before and after the segments.
#[derive(Clone, Copy, Debug, PartialEq, Eq)]
pub struct MemoryMerklePvs<T> {
    pub initial_root: [T; DIGEST_SIZE],
    pub final_root: [T; DIGEST_SIZE],
}

/// The public values of a proof that verifies segments of the machine.
#[derive(Clone, Copy, Debug, PartialEq, Eq)]
pub struct VmVerifierPvs<T> {
    pub app_commit: [T; DIGEST_SIZE],
    pub connector: VmConnectorPvs<T>,
    pub memory: MemoryMerklePvs<T>,
    pub public_values_commit: [T; DIGEST_SIZE],
}

impl<T: Copy> VmVerifierPvs<T> {
    /// The commitment to the program, the connector's values, the first and
    /// the last memory root, and the commitment to the user's public values.
    pub open spec fn spec_width() -> nat {
        (DIGEST_SIZE + CONNECTOR_PVS_WIDTH + 2 * DIGEST_SIZE + DIGEST_SIZE) as nat
    }

    /// The number of values in the record.
    pub fn width() -> (width: usize)
        ensures
            width == Self::spec_width(),
    {
        DIGEST_SIZE + CONNECTOR_PVS_WIDTH + 2 * DIGEST_SIZE + DIGEST_SIZE
    }

    /// The values of the record in the order of its fields.
    pub open spec fn spec_flatten(self) -> Seq<T> {
        self.app_commit@ + seq![
            self.connector.initial_pc,
            self.connector.final_pc,
            self.connector.exit_code,
            self.connector.is_terminate,
        ] + self.memory.initial_root@ + self.memory.final_root@ + self.public_values_commit@
    }

    /// The values of the record in the order of its fields: as many as its
    /// width.
    pub fn flatten(&self) -> (flat: Vec<T>)
        ensures
            flat@ == self.spec_flatten(),
            flat@.len() == Self::spec_width(),
    {
        let mut flat: Vec<T> = Vec::new();
        push_digest(&mut flat, &self.app_commit);
        flat.push(self.connector.initial_pc);
        flat.push(self.connector.final_pc);
        flat.push(self.connector.exit_code);
        flat.push(self.connector.is_terminate);
        push_digest(&mut flat, &self.memory.initial_root);
        push_digest(&mut flat, &self.memory.final_root);
        push_digest(&mut flat, &self.public_values_commit);
        assert(flat@ =~= self.spec_flatten());
        flat
    }
}

/// What a proof of aggregation exposes beside the record of the stage
/// below: the commitment to its own program and to the leaf verifier.
#[derive(Clone, Copy, Debug, PartialEq, Eq)]
pub struct InternalVmVerifierExtraPvs<T> {
    pub internal_program_commit: [T; DIGEST_SIZE],
    pub leaf_verifier_commit: [T; DIGEST_SIZE],
}

/// The public values of a proof that verifies other proofs of aggregation.
#[derive(Clone, Copy, Debug, PartialEq, Eq)]
pub struct InternalVmVerifierPvs<T> {
    pub vm_verifier_pvs: VmVerifierPvs<T>,
    pub extra_pvs: InternalVmVerifierExtraPvs<T>,
}

impl<T: Copy> InternalVmVerifierPvs<T> {
    /// The record of the stage below, then two digests.
    pub open spec fn spec_width() -> nat {
        (VmVerifierPvs::<T>::spec_width() + 2 * DIGEST_SIZE) as nat
    }

    /// The number of values in the record.
    pub fn width() -> (width: usize)
        ensures
            width == Self::spec_width(),
    {
        VmVerifierPvs::<T>::width() + 2 * DIGEST_SIZE
    }

    /// The values of the record in the order of its fields.
    pub open spec fn spec_flatten(self) -> Seq<T> {
        self.vm_verifier_pvs.spec_flatten() + self.extra_pvs.internal_program_commit@
            + self.extra_pvs.leaf_verifier_commit@
    }

    /// The values of the record in the order of its fields: as many as its
    /// width.
    pub fn flatten(&self) -> (flat: Vec<T>)
        ensures
            flat@ == self.spec_flatten(),
            flat@.len() == Self::spec_width(),
    {
        let mut flat = self.vm_verifier_pvs.flatten();
        push_digest(&mut flat, &self.extra_pvs.internal_program_commit);
        push_digest(&mut flat, &self.extra_pvs.leaf_verifier_commit);
        flat
    }
}

/// The constraint degree that a stage asks for: the degree that its FRI
/// parameters allow, and never more than `SBOX_SIZE`.
pub open spec fn clamped_degree(bound: usize) -> usize {
    if bound < SBOX_SIZE {
        bound
    } else {
        SBOX_SIZE
    }
}

/// Clamps a constraint degree to `SBOX_SIZE`.
pub fn clamp_degree(bound: usize) -> (degree: usize)
    ensures
        degree == clamped_degree(bound),
        degree <= SBOX_SIZE,
        degree <= bound,
        degree == bound || degree == SBOX_SIZE,
{
    if bound < SBOX_SIZE {
        bound
    } else {
        SBOX_SIZE
    }
}

/// The parameters of the three stages of aggregation.
#[derive(Clone, Copy, Debug, PartialEq, Eq, Structural)]
pub struct AggStarkConfig {
    pub leaf_fri_params: FriParameters,
    pub internal_fri_params: FriParameters,
    pub root_fri_params: FriParameters,
    pub max_num_user_public_values: usize,
    pub profiling: bool,
}

impl AggStarkConfig {
    pub open spec fn spec_leaf_vm_config(self) -> NativeConfig {
        NativeConfig {
            num_public_values: VmVerifierPvs::<u8>::spec_width() as usize,
            max_constraint_degree: clamped_degree(self.leaf_fri_params.max_constraint_degree),
            profiling: self.profiling,
        }
    }

    pub open spec fn spec_internal_vm_config(self) -> NativeConfig {
        NativeConfig {
            num_public_values: InternalVmVerifierPvs::<u8>::spec_width() as usize,
            max_constraint_degree: clamped_degree(self.internal_fri_params.max_constraint_degree),
            profiling: self.profiling,
        }
    }

    /// The root stage exposes two digests, the commitment to the program
    /// and the commitment to the leaf verifier, and then the user's values.
    pub open spec fn spec_root_width(self) -> nat {
        (DIGEST_SIZE * 2 + self.max_num_user_public_values) as nat
    }

    pub open spec fn spec_root_verifier_vm_config(self) -> NativeConfig {
        NativeConfig {
            num_public_values: self.spec_root_width() as usize,
            max_constraint_degree: clamped_degree(self.root_fri_params.max_constraint_degree),
            profiling: self.profiling,
        }
    }

    /// The configuration with which leaf proofs are made.
    pub fn leaf_vm_config(&self) -> (config: NativeConfig)
        ensures
            config == self.spec_leaf_vm_config(),
    {
        let mut config = NativeConfig::aggregation(
            VmVerifierPvs::<u8>::width(),
            clamp_degree(self.leaf_fri_params.max_constraint_degree()),
        );
        config.profiling = self.profiling;
        config
    }

    /// The configuration with which internal proofs are made.
    pub fn internal_vm_config(&self) -> (config: NativeConfig)
        ensures
            config == self.spec_internal_vm_config(),
    {
        let mut config = NativeConfig::aggregation(
            InternalVmVerifierPvs::<u8>::width(),
            clamp_degree(self.internal_fri_params.max_constraint_degree()),
        );
        config.profiling = self.profiling;
        config
    }

    /// The configuration with which the root proof is made.
    pub fn root_verifier_vm_config(&self) -> (config: NativeConfig)
        requires
            self.spec_root_width() <= usize::MAX,
        ensures
            config == self.spec_root_verifier_vm_config(),
            config.num_public_values == 2 * DIGEST_SIZE + self.max_num_user_public_values,
    {
        let mut config = NativeConfig::aggregation(
            DIGEST_SIZE * 2 + self.max_num_user_public_values,
            clamp_degree(self.root_fri_params.max_constraint_degree()),
        );
        config.profiling = self.profiling;
        config
    }
}

/// Derivation is idempotent: two derivations of a stage from one
/// configuration give the same result.
pub proof fn lemma_derivation_idempotent(
    config: AggStarkConfig,
    first: (NativeConfig, NativeConfig, NativeConfig),
    second: (NativeConfig, NativeConfig, NativeConfig),
)
    requires
        call_ensures(AggStarkConfig::leaf_vm_config, (&config,), first.0),
        call_ensures(AggStarkConfig::leaf_vm_config, (&config,), second.0),
        call_ensures(AggStarkConfig::internal_vm_config, (&config,), first.1),
        call_ensures(AggStarkConfig::internal_vm_config, (&config,), second.1),
        call_ensures(AggStarkConfig::root_verifier_vm_config, (&config,), first.2),
        call_ensures(AggStarkConfig::root_verifier_vm_config, (&config,), second.2),
    ensures
        first == second,
{
}

/// The degree of every stage is the lesser of `SBOX_SIZE` and what that
/// stage's own FRI parameters allow, and every stage copies the profiling
/// flag.
pub proof fn lemma_stage_degrees(config: AggStarkConfig)
    ensures
        config.spec_leaf_vm_config().max_constraint_degree <= SBOX_SIZE,
        config.spec_internal_vm_config().max_constraint_degree <= SBOX_SIZE,
        config.spec_root_verifier_vm_config().max_constraint_degree <= SBOX_SIZE,
        config.leaf_fri_params.max_constraint_degree <= SBOX_SIZE
            ==> config.spec_leaf_vm_config().max_constraint_degree
            == config.leaf_fri_params.max_constraint_degree,
        config.leaf_fri_params.max_constraint_degree >= SBOX_SIZE
            ==> config.spec_leaf_vm_config().max_constraint_degree == SBOX_SIZE,
        config.internal_fri_params.max_constraint_degree <= SBOX_SIZE
            ==> config.spec_internal_vm_config().max_constraint_degree
            == config.internal_fri_params.max_constraint_degree,
        config.internal_fri_params.max_constraint_degree >= SBOX_SIZE
            ==> config.spec_internal_vm_config().max_constraint_degree == SBOX_SIZE,
        config.root_fri_params.max_constraint_degree <= SBOX_SIZE
            ==> config.spec_root_verifier_vm_config().max_constraint_degree
            == config.root_fri_params.max_constraint_degree,
        config.root_fri_params.max_constraint_degree >= SBOX_SIZE
            ==> config.spec_root_verifier_vm_config().max_constraint_degree == SBOX_SIZE,
        config.spec_leaf_vm_config().profiling == config.profiling,
        config.spec_internal_vm_config().profiling == config.profiling,
        config.spec_root_verifier_vm_config().profiling == config.profiling,
{
}

} // verus!
