//! Where the block stream resumes, and the stream source's configuration
//! for that height.
use crate::checkpoint::{
    checkpoint_holds, get_synced_block_height, lemma_json_u64_unique, stored_view, CheckpointError,
};
use crate::env::Env;
use near_lake_framework::{LakeConfig, LakeConfigBuilder};
use vstd::prelude::*;

verus! {

#[verifier::external_type_specification]
#[verifier::external_body]
pub struct ExLakeConfig(LakeConfig);

/// Why the stream could not be set up.
#[derive(Debug)]
pub enum BootstrapError {
    /// The stored checkpoint text is not an unsigned 64-bit JSON integer.
    CorruptCheckpoint { raw: String },
    /// The checkpoint is the largest height, so no height follows it.
    CheckpointAtMaximum,
    /// The stream source refused the configuration.
    StreamConfigBuild,
}

/// Relies on `LakeConfigBuilder::default`, `testnet`, `start_block_height`
/// and `build`: `testnet` sets the bucket and the region, the height is set,
/// and neither `s3_config` nor `s3_client` is, so every required field is
/// present, validation passes and `build` succeeds.
#[verifier::external_body]
fn lake_config_testnet(start_block_height: u64) -> (r: Option<LakeConfig>)
    ensures
        r is Some,
{
    LakeConfigBuilder::default().testnet().start_block_height(start_block_height).build().ok()
}

/// Relies on `LakeConfigBuilder::default`, `mainnet`, `start_block_height`
/// and `build`: `mainnet` sets the bucket and the region, the height is set,
/// and neither `s3_config` nor `s3_client` is, so every required field is
/// present, validation passes and `build` succeeds.
#[verifier::external_body]
fn lake_config_mainnet(start_block_height: u64) -> (r: Option<LakeConfig>)
    ensures
        r is Some,
{
    LakeConfigBuilder::default().mainnet().start_block_height(start_block_height).build().ok()
}

/// A checkpoint record reads as at most one height.
pub proof fn lemma_checkpoint_holds_unique(stored: Option<Seq<char>>)
    ensures
        forall|a: u64, b: u64|
            #![trigger checkpoint_holds(stored, a), checkpoint_holds(stored, b)]
            checkpoint_holds(stored, a) && checkpoint_holds(stored, b) ==> a == b,
{
    assert forall|a: u64, b: u64|
        checkpoint_holds(stored, a) && checkpoint_holds(stored, b) implies a == b by {
        if let Some(s) = stored {
            lemma_json_u64_unique(s, a, b);
        }
    }
}

/// The height the stream starts from: the configured one, or, when resuming,
/// the height right after the checkpoint, so that the checkpointed block is
/// never processed twice. `stored` is the checkpoint record as fetched; it is
/// read only when resuming.
pub fn resolve_start_height(config: &Env, stored: Option<String>) -> (r: Result<
    u64,
    BootstrapError,
>)
    ensures
        !config.start_block_height_from_cache ==> r == Ok::<u64, BootstrapError>(
            config.start_block_height,
        ),
        config.start_block_height_from_cache ==> match r {
            Ok(n) => n >= 1 && checkpoint_holds(stored_view(stored), (n - 1) as u64),
            Err(BootstrapError::CorruptCheckpoint { raw }) => stored == Some(raw) && forall|h: u64|
                !checkpoint_holds(stored_view(stored), h),
            Err(BootstrapError::CheckpointAtMaximum) => checkpoint_holds(
                stored_view(stored),
                u64::MAX,
            ),
            Err(BootstrapError::StreamConfigBuild) => false,
        },
{
    if !config.start_block_height_from_cache {
        return Ok(config.start_block_height);
    }
    match get_synced_block_height(stored) {
        Ok(h) => {
            if h == u64::MAX {
                Err(BootstrapError::CheckpointAtMaximum)
            } else {
                Ok(h + 1)
            }
        },
        Err(CheckpointError::Corrupt { raw }) => Err(BootstrapError::CorruptCheckpoint { raw }),
    }
}

/// The stream source's configuration: testnet when `test` holds, mainnet
/// otherwise, starting at `start_block_height`. The builder accepts every
/// height, so this succeeds; a refusal would surface as `StreamConfigBuild`.
pub fn build_lake_config(start_block_height: u64, test: bool) -> (r: Result<
    LakeConfig,
    BootstrapError,
>)
    ensures
        r is Ok,
{
    let built = if test {
        lake_config_testnet(start_block_height)
    } else {
        lake_config_mainnet(start_block_height)
    };
    match built {
        Some(c) => Ok(c),
        None => Err(BootstrapError::StreamConfigBuild),
    }
}

/// Resolves the start height from `config` and the fetched checkpoint
/// record `stored`, then configures the stream source for it.
pub fn init_lake_config(config: &Env, stored: Option<String>) -> (r: Result<
    LakeConfig,
    BootstrapError,
>)
    ensures
        !config.start_block_height_from_cache ==> r is Ok,
        config.start_block_height_from_cache ==> (r is Ok <==> exists|h: u64|
            h < u64::MAX && #[trigger] checkpoint_holds(stored_view(stored), h)),
        config.start_block_height_from_cache && (forall|h: u64|
            !checkpoint_holds(stored_view(stored), h)) ==> r matches Err(
            BootstrapError::CorruptCheckpoint { .. },
        ),
        config.start_block_height_from_cache && checkpoint_holds(stored_view(stored), u64::MAX)
            ==> r matches Err(BootstrapError::CheckpointAtMaximum),
        r matches Err(BootstrapError::CorruptCheckpoint { raw }) ==> config.start_block_height_from_cache
            && stored == Some(raw) && forall|h: u64| !checkpoint_holds(stored_view(stored), h),
        r matches Err(BootstrapError::CheckpointAtMaximum) ==> config.start_block_height_from_cache
            && checkpoint_holds(stored_view(stored), u64::MAX),
        !(r matches Err(BootstrapError::StreamConfigBuild)),
{
    let ghost sv = stored_view(stored);
    let resolved = resolve_start_height(config, stored);
    proof {
        lemma_checkpoint_holds_unique(sv);
    }
    match resolved {
        Ok(height) => build_lake_config(height, config.test),
        Err(e) => Err(e),
    }
}

} // verus!
