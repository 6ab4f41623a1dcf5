//! The decisions behind the host's lifecycle callbacks: the log line each
//! callback emits and the result it reports back to the host.

use vstd::prelude::*;

verus! {

/// The lifecycle callbacks the host invokes, apart from event delivery.
#[derive(Clone, Copy, PartialEq, Eq, Structural, Debug)]
pub enum Stage {
    AppInit,
    AppFinal,
    ExtInit,
    ExtFinal,
    Update,
}

/// What a lifecycle callback reports back to the host.
#[derive(Clone, Copy, PartialEq, Eq, Structural, Debug)]
pub enum ExtResult {
    Success,
    InitError,
}

/// The log line emitted at each lifecycle stage.
pub open spec fn spec_stage_message(s: Stage) -> Seq<char> {
    match s {
        Stage::AppInit => "app_init"@,
        Stage::AppFinal => "app_final"@,
        Stage::ExtInit => "Registered my extension"@,
        Stage::ExtFinal => "ext_final"@,
        Stage::Update => "on_update"@,
    }
}

/// The numeric code an extension result is handed to the host as: zero for
/// success, negative one for a failed initialisation.
pub open spec fn spec_result_code(r: ExtResult) -> i32 {
    match r {
        ExtResult::Success => 0,
        ExtResult::InitError => -1i32,
    }
}

impl Stage {
    /// The log line for this stage.
    pub fn message(&self) -> (m: &'static str)
        ensures
            m@ == spec_stage_message(*self),
    {
        match self {
            Stage::AppInit => "app_init",
            Stage::AppFinal => "app_final",
            Stage::ExtInit => "Registered my extension",
            Stage::ExtFinal => "ext_final",
            Stage::Update => "on_update",
        }
    }

    /// What the callback for this stage reports: lifecycle callbacks are
    /// infallible by construction and always report success.
    pub fn outcome(&self) -> (r: ExtResult)
        ensures
            r == ExtResult::Success,
    {
        ExtResult::Success
    }
}

impl ExtResult {
    /// The numeric code for this result at the host boundary.
    pub fn code(&self) -> (c: i32)
        ensures
            c == spec_result_code(*self),
    {
        match self {
            ExtResult::Success => 0,
            ExtResult::InitError => -1,
        }
    }
}

} // verus!
