//! The failures that a simulation request can end in.

use vstd::prelude::*;

verus! {

/// Why a request was not served. Every failure ends the whole request.
#[derive(Clone, Copy, Debug, PartialEq, Eq, Structural)]
pub enum SimulationError {
    /// The engine could not be built against the fork.
    EvmCreate,
    /// The request's chain id is not the engine's.
    IncorrectChainId,
    /// The requests of one run name different chain ids.
    MultipleChainIds,
    /// A block advance was asked for without a block number.
    NoBlockNumber,
    /// A requested block number breaks the progression rule.
    InvalidBlockNumbers,
    /// No session is registered under the given identifier.
    StateNotFound,
    /// The engine failed to execute (a revert is not a failure).
    Evm,
    /// An override could not be applied.
    Override,
    /// The call trace could not be rendered.
    Serialization,
}

impl SimulationError {
    /// A short description of the failure, for responses and logs.
    pub fn message(&self) -> (text: &'static str)
        ensures
            text@.len() > 0,
    {
        proof {
            reveal_strlit("engine creation failed");
            reveal_strlit("incorrect chain id");
            reveal_strlit("multiple chain ids in one run");
            reveal_strlit("no block number");
            reveal_strlit("invalid block numbers");
            reveal_strlit("state not found");
            reveal_strlit("engine execution failed");
            reveal_strlit("override failed");
            reveal_strlit("trace serialization failed");
        }
        match self {
            SimulationError::EvmCreate => "engine creation failed",
            SimulationError::IncorrectChainId => "incorrect chain id",
            SimulationError::MultipleChainIds => "multiple chain ids in one run",
            SimulationError::NoBlockNumber => "no block number",
            SimulationError::InvalidBlockNumbers => "invalid block numbers",
            SimulationError::StateNotFound => "state not found",
            SimulationError::Evm => "engine execution failed",
            SimulationError::Override => "override failed",
            SimulationError::Serialization => "trace serialization failed",
        }
    }
}

} // verus!
