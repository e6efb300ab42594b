//! What a handler reports about itself, and the sources built from it.
//!
//! The indexer never looks inside a handler. It works on the values that a
//! handler reports: where it starts, what it listens to, on which network, and
//! how its invocations are to be scheduled. `id` is chosen by the caller and
//! carried through untouched, so that the caller finds the handler again when
//! the indexer tells it what to run.

use vstd::prelude::*;
use crate::address::Address;

verus! {

/// Number of blocks that one scan window covers unless configured otherwise.
pub const DEFAULT_STEP: u64 = 10_000;

/// How the invocations of one batch are scheduled.
#[derive(Copy, Debug, PartialEq, Eq, Structural)]
pub enum ExecutionMode {
    /// Every item of a batch is started at once and none is waited for.
    Parallel,
    /// Items are handled one at a time, each awaited before the next starts.
    Serial,
}

impl Clone for ExecutionMode {
    fn clone(&self) -> (copy: Self)
        ensures
            copy == *self,
    {
        *self
    }
}

/// An event handler, as it describes itself.
#[derive(Debug, PartialEq, Eq)]
pub struct HandleInstance {
    /// The caller's key for the handler.
    pub id: usize,
    /// Name of the configured source that the handler belongs to.
    pub source: String,
    /// Name of the network that the source lives on.
    pub network: String,
    /// Signature of the event that the handler listens to.
    pub event_signature: String,
    /// Address of the contract; unused for a template.
    pub address: Address,
    /// Block at which indexing starts.
    pub start_block: u64,
    /// Whether the contract address is only known at run time.
    pub is_template: bool,
    /// How invocations of the handler are scheduled.
    pub execution_mode: ExecutionMode,
}

impl Clone for HandleInstance {
    fn clone(&self) -> (copy: Self)
        ensures
            copy == *self,
    {
        HandleInstance {
            id: self.id,
            source: self.source.clone(),
            network: self.network.clone(),
            event_signature: self.event_signature.clone(),
            address: self.address,
            start_block: self.start_block,
            is_template: self.is_template,
            execution_mode: self.execution_mode,
        }
    }
}

/// A handler that is invoked on block ranges, as it describes itself.
#[derive(Debug, PartialEq, Eq)]
pub struct BlockHandlerInstance {
    /// The caller's key for the handler.
    pub id: usize,
    /// Name of the configured block handler.
    pub name: String,
    /// Name of the network whose blocks are walked.
    pub network: String,
    /// Block at which the walk starts.
    pub start_block: u64,
    /// Largest number of blocks handed over at once.
    pub step: u64,
    /// How invocations of the handler are scheduled.
    pub execution_mode: ExecutionMode,
}

impl Clone for BlockHandlerInstance {
    fn clone(&self) -> (copy: Self)
        ensures
            copy == *self,
    {
        BlockHandlerInstance {
            id: self.id,
            name: self.name.clone(),
            network: self.network.clone(),
            start_block: self.start_block,
            step: self.step,
            execution_mode: self.execution_mode,
        }
    }
}

/// One event source, ready to be scanned.
#[derive(Debug, PartialEq, Eq)]
pub struct HandlerConfig {
    /// Block at which the scan starts.
    pub start_block: u64,
    /// Contract whose logs are requested.
    pub address: Address,
    /// Largest number of blocks requested at once.
    pub step: u64,
    /// The handler that receives the logs.
    pub handler: HandleInstance,
}

impl Clone for HandlerConfig {
    fn clone(&self) -> (copy: Self)
        ensures
            copy == *self,
    {
        HandlerConfig {
            start_block: self.start_block,
            address: self.address,
            step: self.step,
            handler: self.handler.clone(),
        }
    }
}

/// One block source, ready to be walked.
#[derive(Debug, PartialEq, Eq)]
pub struct BlockConfig {
    /// The handler that receives the block ranges.
    pub handler: BlockHandlerInstance,
}

impl Clone for BlockConfig {
    fn clone(&self) -> (copy: Self)
        ensures
            copy == *self,
    {
        BlockConfig { handler: self.handler.clone() }
    }
}

} // verus!
