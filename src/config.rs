//! Build configuration: the options a builder config accepts, their native
//! flags per library major version, and network creation flags.
use vstd::prelude::*;
use crate::error::Failure;

verus! {

/// A one-way build option of a builder config.
#[derive(Copy, Clone, Debug, PartialEq, Eq, Structural)]
pub enum BuildOption {
    /// Keep layer precisions as requested.
    StrictTypes,
    /// Produce a plan that later library versions can run.
    VersionCompatible,
    /// Leave the lean runtime out of a version-compatible plan.
    ExcludeLeanRuntime,
    /// Allow 16-bit floating point kernels.
    Fp16,
    /// Allow 8-bit integer kernels.
    Int8,
}

/// A native builder flag.
#[derive(Copy, Clone, Debug, PartialEq, Eq, Structural)]
pub enum BuilderFlag {
    Fp16,
    Int8,
    StrictTypes,
    PreferPrecisionConstraints,
    DirectIo,
    RejectEmptyAlgorithms,
    VersionCompatible,
    ExcludeLeanRuntime,
}

/// First native major version without the strict-types flag.
pub const STRICT_TYPES_REMOVED_IN: u32 = 10;

/// The native flags that stand for `option` on a library of major version
/// `major`. From the version that removed strict types on, that option is
/// the three flags that together replace it.
pub open spec fn flags_for(option: BuildOption, major: u32) -> Seq<BuilderFlag> {
    match option {
        BuildOption::StrictTypes => if major >= STRICT_TYPES_REMOVED_IN {
            seq![
                BuilderFlag::PreferPrecisionConstraints,
                BuilderFlag::DirectIo,
                BuilderFlag::RejectEmptyAlgorithms,
            ]
        } else {
            seq![BuilderFlag::StrictTypes]
        },
        BuildOption::VersionCompatible => seq![BuilderFlag::VersionCompatible],
        BuildOption::ExcludeLeanRuntime => seq![BuilderFlag::ExcludeLeanRuntime],
        BuildOption::Fp16 => seq![BuilderFlag::Fp16],
        BuildOption::Int8 => seq![BuilderFlag::Int8],
    }
}

/// The native flags to set, in order, for `option` on major version `major`.
pub fn native_flags(option: BuildOption, major: u32) -> (r: Vec<BuilderFlag>)
    ensures
        r@ == flags_for(option, major),
{
    let mut flags: Vec<BuilderFlag> = Vec::new();
    match option {
        BuildOption::StrictTypes => {
            if major >= STRICT_TYPES_REMOVED_IN {
                flags.push(BuilderFlag::PreferPrecisionConstraints);
                flags.push(BuilderFlag::DirectIo);
                flags.push(BuilderFlag::RejectEmptyAlgorithms);
            } else {
                flags.push(BuilderFlag::StrictTypes);
            }
        },
        BuildOption::VersionCompatible => flags.push(BuilderFlag::VersionCompatible),
        BuildOption::ExcludeLeanRuntime => flags.push(BuilderFlag::ExcludeLeanRuntime),
        BuildOption::Fp16 => flags.push(BuilderFlag::Fp16),
        BuildOption::Int8 => flags.push(BuilderFlag::Int8),
    }
    assert(flags@ =~= flags_for(option, major));
    flags
}

/// Flags for creating a network definition.
#[derive(Copy, Clone, Debug, PartialEq, Eq, Structural)]
pub enum NetworkDefinitionCreationFlags {
    /// No flag.
    NoFlags,
    /// Explicit batch size.
    ExplicitBatchSize,
}

/// Bit position of the native explicit-batch creation flag.
pub const EXPLICIT_BATCH_BIT: u32 = 0;

/// The native creation-flag word for `flags`.
pub fn creation_flag_bits(flags: NetworkDefinitionCreationFlags) -> (r: u32)
    ensures
        flags == NetworkDefinitionCreationFlags::NoFlags ==> r == 0,
        flags == NetworkDefinitionCreationFlags::ExplicitBatchSize ==> r == 1u32
            << EXPLICIT_BATCH_BIT,
{
    match flags {
        NetworkDefinitionCreationFlags::NoFlags => 0,
        NetworkDefinitionCreationFlags::ExplicitBatchSize => 1u32 << EXPLICIT_BATCH_BIT,
    }
}

/// The outcome of attaching an optimization profile, from the index the
/// native attach call returned: success exactly when it is non-negative.
pub fn profile_attach_result(index: i32) -> (r: Result<(), Failure>)
    ensures
        r.is_ok() <==> index >= 0,
        index < 0 ==> r == Err::<(), Failure>(Failure::NegativeIndex { index }),
{
    if index >= 0 {
        Ok(())
    } else {
        Err(Failure::NegativeIndex { index })
    }
}

} // verus!
