//! The stages of one image pull. Each stage makes one request (and, for a
//! layer, unpacks it); the transition function decides the next one, and the
//! first failure ends the pull with no further request.
use vstd::prelude::*;
use crate::image::RegistryError;

verus! {

#[derive(Debug, Clone, Copy, PartialEq, Eq, Structural)]
pub enum PullStage {
    /// Fetch an access token for the repository.
    Auth,
    /// Fetch the manifest named by the tag.
    TagManifest,
    /// Fetch the platform manifest chosen from a list or an index.
    PlatformManifest,
    /// Fetch the image configuration blob.
    Config,
    /// Fetch and unpack the layer at this index of the manifest.
    Layer(usize),
    /// Every layer is unpacked.
    Done,
    /// The pull stopped with this error.
    Failed(RegistryError),
}

/// The stage after the work of `stage` ended with `outcome`. `single` says
/// that the tag's manifest is already the single manifest; `layers` is the
/// manifest's number of layers.
pub open spec fn pull_next_spec(
    stage: PullStage,
    outcome: Result<(), RegistryError>,
    single: bool,
    layers: nat,
) -> PullStage {
    match stage {
        PullStage::Done => PullStage::Done,
        PullStage::Failed(f) => PullStage::Failed(f),
        _ => match outcome {
            Err(e) => PullStage::Failed(e),
            Ok(_) => match stage {
                PullStage::Auth => PullStage::TagManifest,
                PullStage::TagManifest => if single {
                    PullStage::Config
                } else {
                    PullStage::PlatformManifest
                },
                PullStage::PlatformManifest => PullStage::Config,
                PullStage::Config => if layers == 0 {
                    PullStage::Done
                } else {
                    PullStage::Layer(0)
                },
                PullStage::Layer(i) => if i + 1 < layers {
                    PullStage::Layer((i + 1) as usize)
                } else {
                    PullStage::Done
                },
                _ => stage,
            },
        },
    }
}

/// The work of `stage` makes a request.
pub open spec fn requests(stage: PullStage) -> bool {
    !(stage is Done) && !(stage is Failed)
}

/// Where a pull stands after the stages meet the outcomes `outcomes` in turn.
pub open spec fn pull_run(
    stage: PullStage,
    outcomes: Seq<Result<(), RegistryError>>,
    single: bool,
    layers: nat,
) -> PullStage
    decreases outcomes.len(),
{
    if outcomes.len() == 0 {
        stage
    } else {
        pull_run(pull_next_spec(stage, outcomes[0], single, layers), outcomes.drop_first(), single, layers)
    }
}

/// Where a pull goes after the work of `stage`.
pub fn next_pull_stage(
    stage: PullStage,
    outcome: Result<(), RegistryError>,
    single: bool,
    layers: usize,
) -> (r: PullStage)
    ensures
        r == pull_next_spec(stage, outcome, single, layers as nat),
{
    match stage {
        PullStage::Done => PullStage::Done,
        PullStage::Failed(f) => PullStage::Failed(f),
        _ => match outcome {
            Err(e) => PullStage::Failed(e),
            Ok(_) => match stage {
                PullStage::Auth => PullStage::TagManifest,
                PullStage::TagManifest => if single {
                    PullStage::Config
                } else {
                    PullStage::PlatformManifest
                },
                PullStage::PlatformManifest => PullStage::Config,
                PullStage::Config => if layers == 0 {
                    PullStage::Done
                } else {
                    PullStage::Layer(0)
                },
                PullStage::Layer(i) => if layers > 0 && i < layers - 1 {
                    PullStage::Layer(i + 1)
                } else {
                    PullStage::Done
                },
                _ => stage,
            },
        },
    }
}

/// Whether the work of `stage` makes a request.
pub fn is_fetching(stage: PullStage) -> (r: bool)
    ensures
        r == requests(stage),
{
    match stage {
        PullStage::Done | PullStage::Failed(_) => false,
        _ => true,
    }
}

/// A failed pull makes no further request, whatever comes after: once a
/// stage fails with `e` (for instance `PlatformNotFound` when no entry of a
/// list or index fits), the pull stays failed with `e`.
pub proof fn lemma_failure_is_final(
    stage: PullStage,
    e: RegistryError,
    outcomes: Seq<Result<(), RegistryError>>,
    single: bool,
    layers: nat,
)
    requires
        requests(stage),
    ensures
        pull_run(pull_next_spec(stage, Err(e), single, layers), outcomes, single, layers)
            == PullStage::Failed(e),
        !requests(pull_run(pull_next_spec(stage, Err(e), single, layers), outcomes, single, layers)),
    decreases outcomes.len(),
{
    if outcomes.len() > 0 {
        lemma_failure_is_final(stage, e, outcomes.drop_first(), single, layers);
    }
}

} // verus!
