//! The orchestrator and the registration of sources found at run time.
//!
//! An [`Indexer`] first collects the configured sources. [`Indexer::start`]
//! ends that phase and lists the tasks to run, one per source. From then on
//! the caller waits on the registration channel and asks
//! [`Indexer::on_registration`] what to do with whatever arrives: every
//! registration becomes one more task.
//!
//! A handler registers a source through a [`TemplateManager`], which turns a
//! [`Template`] into the message that goes over the channel.

use vstd::prelude::*;
use crate::address::Address;
use crate::handler::{
    BlockConfig,
    BlockHandlerInstance,
    HandleInstance,
    HandlerConfig,
    DEFAULT_STEP,
};

verus! {

/// Number of registrations that the channel holds before a sender has to
/// wait.
pub const TEMPLATE_CHANNEL_CAPACITY: usize = 1;

/// A source discovered at run time: a contract at `address` to be indexed
/// from `start_block` on by `handler`.
#[derive(Debug, PartialEq, Eq)]
pub struct Template {
    pub start_block: u64,
    pub address: Address,
    pub handler: HandleInstance,
}

/// The sending side of the registration channel.
#[derive(Clone, Copy, Debug, PartialEq, Eq, Structural)]
pub struct TemplateManager {
    /// Size of the scan window given to every registered source.
    pub step: u64,
}

impl TemplateManager {
    /// The source that a template is registered as.
    pub open spec fn registration(&self, template: Template) -> HandlerConfig {
        HandlerConfig {
            start_block: template.start_block,
            address: template.address,
            step: self.step,
            handler: template.handler,
        }
    }

    /// Turns a template into the source to send to the orchestrator: the
    /// template's start block, address and handler, with this manager's
    /// window size.
    pub fn start(&self, template: Template) -> (registration: HandlerConfig)
        ensures
            registration == self.registration(template),
    {
        HandlerConfig {
            start_block: template.start_block,
            address: template.address,
            step: self.step,
            handler: template.handler,
        }
    }
}

/// A task for the caller to run for as long as the process lives.
#[derive(Debug, PartialEq, Eq)]
pub enum Task {
    /// Walk the blocks of the source.
    Blocks(BlockConfig),
    /// Scan the logs of the source.
    Events(HandlerConfig),
}

/// One task per block source, in order.
pub open spec fn block_tasks(blocks: Seq<BlockConfig>) -> Seq<Task> {
    blocks.map_values(|config: BlockConfig| Task::Blocks(config))
}

/// One task per event source, in order.
pub open spec fn event_tasks(events: Seq<HandlerConfig>) -> Seq<Task> {
    events.map_values(|config: HandlerConfig| Task::Events(config))
}

/// The tasks that a start lists: one for each block source, in the order in
/// which they were loaded, then one for each event source, in theirs.
pub open spec fn startup(blocks: Seq<BlockConfig>, events: Seq<HandlerConfig>) -> Seq<Task> {
    block_tasks(blocks) + event_tasks(events)
}

/// What the orchestrator does with what it received from the registration
/// channel: a registration becomes the task that scans it, and the end of the
/// channel ends the run.
pub open spec fn received(message: Option<HandlerConfig>) -> Option<Task> {
    match message {
        Some(config) => Some(Task::Events(config)),
        None => None,
    }
}

/// The orchestrator while it collects the configured sources.
#[derive(Debug)]
pub struct Indexer {
    handlers: Vec<HandlerConfig>,
    block_handlers: Vec<BlockConfig>,
    templates: TemplateManager,
}

impl Indexer {
    /// The event sources loaded so far.
    pub closed spec fn handlers(&self) -> Seq<HandlerConfig> {
        self.handlers@
    }

    /// The block sources loaded so far.
    pub closed spec fn block_handlers(&self) -> Seq<BlockConfig> {
        self.block_handlers@
    }

    /// The manager that handlers register new sources through.
    pub closed spec fn spec_templates(&self) -> TemplateManager {
        self.templates
    }

    /// The event source that a configured handler is loaded as.
    pub open spec fn source_of(&self, handler: HandleInstance) -> HandlerConfig {
        HandlerConfig {
            start_block: handler.start_block,
            address: handler.address,
            step: self.spec_templates().step,
            handler,
        }
    }

    /// An orchestrator with no source, whose scan windows are 10,000 blocks
    /// long.
    pub fn new() -> (indexer: Indexer)
        ensures
            indexer.handlers() == Seq::<HandlerConfig>::empty(),
            indexer.block_handlers() == Seq::<BlockConfig>::empty(),
            indexer.spec_templates() == (TemplateManager { step: DEFAULT_STEP }),
    {
        Indexer {
            handlers: Vec::new(),
            block_handlers: Vec::new(),
            templates: TemplateManager { step: DEFAULT_STEP },
        }
    }

    /// The manager that handlers register new sources through.
    pub fn templates(&self) -> (manager: TemplateManager)
        ensures
            manager == self.spec_templates(),
    {
        self.templates
    }

    /// Adds the source of an event handler. A template handler has no source
    /// until one is registered at run time, so it is left out.
    pub fn load_event_handler(&mut self, handler: HandleInstance)
        ensures
            final(self).block_handlers() == old(self).block_handlers(),
            final(self).spec_templates() == old(self).spec_templates(),
            handler.is_template ==> final(self).handlers() == old(self).handlers(),
            !handler.is_template ==> final(self).handlers() == old(self).handlers().push(
                old(self).source_of(handler),
            ),
    {
        if handler.is_template {
            return ;
        }
        self.handlers.push(
            HandlerConfig {
                start_block: handler.start_block,
                address: handler.address,
                step: self.templates.step,
                handler,
            },
        );
    }

    /// Adds the source of a block handler.
    pub fn load_block_handler(&mut self, handler: BlockHandlerInstance)
        ensures
            final(self).handlers() == old(self).handlers(),
            final(self).spec_templates() == old(self).spec_templates(),
            final(self).block_handlers() == old(self).block_handlers().push(
                BlockConfig { handler },
            ),
    {
        self.block_handlers.push(BlockConfig { handler });
    }

    /// Ends the loading phase and lists the tasks to run: one per loaded
    /// source, block sources first.
    pub fn start(self) -> (tasks: Vec<Task>)
        ensures
            tasks@ == startup(self.block_handlers(), self.handlers()),
    {
        let mut tasks: Vec<Task> = Vec::new();
        let ghost blocks = block_tasks(self.block_handlers@);
        let ghost events = event_tasks(self.handlers@);
        let mut i: usize = 0;
        while i < self.block_handlers.len()
            invariant
                i <= self.block_handlers.len(),
                blocks == block_tasks(self.block_handlers@),
                tasks@ == blocks.subrange(0, i as int),
            decreases self.block_handlers.len() - i,
        {
            tasks.push(Task::Blocks(self.block_handlers[i].clone()));
            assert(tasks@ =~= blocks.subrange(0, i + 1));
            i += 1;
        }
        assert(tasks@ =~= blocks);
        let mut j: usize = 0;
        while j < self.handlers.len()
            invariant
                j <= self.handlers.len(),
                events == event_tasks(self.handlers@),
                tasks@ == blocks + events.subrange(0, j as int),
            decreases self.handlers.len() - j,
        {
            tasks.push(Task::Events(self.handlers[j].clone()));
            assert(tasks@ =~= blocks + events.subrange(0, j + 1));
            j += 1;
        }
        assert(tasks@ =~= blocks + events);
        tasks
    }

    /// Decides what the running orchestrator does with what it received from
    /// the registration channel: `Some` task to start for a registration,
    /// `None` when the channel has closed and the run is over.
    pub fn on_registration(message: Option<HandlerConfig>) -> (task: Option<Task>)
        ensures
            task == received(message),
    {
        match message {
            Some(config) => Some(Task::Events(config)),
            None => None,
        }
    }
}

/// A source registered through a manager is started as exactly one task, and
/// that task scans the address of the template, from its start block, with
/// its handler.
pub proof fn lemma_registration_spawns_its_source(manager: TemplateManager, template: Template)
    ensures
        received(Some(manager.registration(template))) == Some(
            Task::Events(
                HandlerConfig {
                    start_block: template.start_block,
                    address: template.address,
                    step: manager.step,
                    handler: template.handler,
                },
            ),
        ),
{
}

/// Loading sources and then starting lists each loaded source once and in
/// order: the tasks are as many as the sources, and each is the task of the
/// source at its place.
pub proof fn lemma_start_lists_every_source(
    blocks: Seq<BlockConfig>,
    events: Seq<HandlerConfig>,
)
    ensures
        startup(blocks, events).len() == blocks.len() + events.len(),
        forall|i: int|
            0 <= i < blocks.len() ==> #[trigger] startup(blocks, events)[i] == Task::Blocks(
                blocks[i],
            ),
        forall|i: int|
            0 <= i < events.len() ==> #[trigger] startup(blocks, events)[blocks.len() + i]
                == Task::Events(events[i]),
{
}

} // verus!
