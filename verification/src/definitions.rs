//! What a declared handler is, according to the configuration.
//!
//! An event handler is declared as `Source.Event`: the name of a configured
//! data source or template, a dot, and the name of an event of its contract.
//! A block handler is declared by the name of a configured block handler.
//! The functions here read such a declaration and look up everything that
//! the handler will report about itself.

use vstd::prelude::*;
use vstd::string::*;
use vstd::utf8::is_ascii_chars;
use crate::config::{entry_names, find_entry, Config};
use crate::handler::{BlockHandlerInstance, ExecutionMode};

verus! {

/// The text that `str::trim` returns for `text`.
pub uninterp spec fn trimmed(text: Seq<char>) -> Seq<char>;

/// Calls `str::trim`, which returns the text without the white space at its
/// start and at its end. What counts as white space is left to the standard
/// library; the contract only names the result.
#[verifier::external_body]
fn trim<'a>(text: &'a str) -> (out: &'a str)
    ensures
        out@ == trimmed(text@),
{
    text.trim()
}

/// Why a declaration `Source.Event` could not be read.
#[derive(Clone, Copy, Debug, PartialEq, Eq, Structural)]
pub enum MetadataError {
    /// Nothing but white space stands before the first dot.
    SourceEmpty,
    /// There is no dot, so no event is named.
    EventMissing,
    /// Nothing but white space stands after the first dot.
    EventEmpty,
    /// There is a second dot.
    TooManyValues,
}

/// Why a declared handler could not be defined.
#[derive(Clone, Copy, Debug, PartialEq, Eq, Structural)]
pub enum DefinitionError {
    /// The declaration could not be read.
    Metadata(MetadataError),
    /// A block handler was declared without a name.
    SourceMissing,
    /// The configuration has no source of that name.
    SourceNotFound,
    /// The address of the source is no ASCII text of two characters or more.
    MalformedAddress,
    /// The configuration has no network of the name that the source gives.
    NetworkNotFound,
}

/// The address that an event handler reports.
#[derive(Debug, PartialEq, Eq)]
pub enum AddressLiteral {
    /// The zero address: the handler is a template.
    Zero,
    /// The address with these hexadecimal digits.
    Hex(String),
}

/// Everything that a declared event handler reports about itself.
#[derive(Debug, PartialEq, Eq)]
pub struct Definition {
    pub source: String,
    pub event: String,
    pub is_template: bool,
    pub abi: String,
    pub network: String,
    pub rpc_url: String,
    pub requests_per_second: u64,
    pub execution_mode: ExecutionMode,
    pub address: AddressLiteral,
    pub start_block: u64,
}

/// The place of the first dot of `text` at or after `from`, or the length of
/// `text` if there is none.
pub open spec fn next_dot(text: Seq<char>, from: int) -> int
    decreases text.len() - from,
{
    if from < 0 || from >= text.len() {
        text.len() as int
    } else if text[from] == '.' {
        from
    } else {
        next_dot(text, from + 1)
    }
}

/// The source and the event that a declaration names: the trimmed text
/// before the first dot and the trimmed text after it. Either being empty, a
/// missing dot and a second dot are errors, found in this order: empty
/// source, missing dot, empty event, second dot.
pub open spec fn parsed(text: Seq<char>) -> Result<(Seq<char>, Seq<char>), MetadataError> {
    let first = next_dot(text, 0);
    let second = next_dot(text, first + 1);
    if trimmed(text.subrange(0, first)).len() == 0 {
        Err(MetadataError::SourceEmpty)
    } else if first == text.len() {
        Err(MetadataError::EventMissing)
    } else if trimmed(text.subrange(first + 1, second)).len() == 0 {
        Err(MetadataError::EventEmpty)
    } else if second < text.len() {
        Err(MetadataError::TooManyValues)
    } else {
        Ok((trimmed(text.subrange(0, first)), trimmed(text.subrange(first + 1, second))))
    }
}

/// The execution mode of a source that may have left it open: parallel
/// unless it says otherwise.
pub open spec fn mode_or_default(mode: Option<ExecutionMode>) -> ExecutionMode {
    match mode {
        Some(mode) => mode,
        None => ExecutionMode::Parallel,
    }
}

/// Whether the address of a data source can be cut after its two-character
/// prefix.
pub open spec fn has_prefix(address: Seq<char>) -> bool {
    is_ascii_chars(address) && address.len() >= 2
}

fn find_dot(text: &str, from: usize, len: usize) -> (dot: usize)
    requires
        from <= len,
        len == text@.len(),
    ensures
        dot == next_dot(text@, from as int),
        from <= dot <= len,
{
    let mut i: usize = from;
    while i < len
        invariant
            from <= i <= len,
            len == text@.len(),
            next_dot(text@, from as int) == next_dot(text@, i as int),
        decreases len - i,
    {
        if text.get_char(i) == '.' {
            return i;
        }
        i += 1;
    }
    i
}

fn or_default(mode: Option<ExecutionMode>) -> (result: ExecutionMode)
    ensures
        result == mode_or_default(mode),
{
    match mode {
        Some(mode) => mode,
        None => ExecutionMode::Parallel,
    }
}

/// Reads a declaration `Source.Event`.
pub fn get_source_and_event(metadata: &str) -> (result: Result<(String, String), MetadataError>)
    ensures
        match parsed(metadata@) {
            Ok((source, event)) => result matches Ok(pair) && pair.0@ == source && pair.1@
                == event,
            Err(error) => result == Err::<(String, String), MetadataError>(error),
        },
{
    let len = metadata.unicode_len();
    let first = find_dot(metadata, 0, len);
    let source = trim(metadata.substring_char(0, first));
    if source.unicode_len() == 0 {
        return Err(MetadataError::SourceEmpty);
    }
    if first == len {
        return Err(MetadataError::EventMissing);
    }
    let second = find_dot(metadata, first + 1, len);
    let event = trim(metadata.substring_char(first + 1, second));
    if event.unicode_len() == 0 {
        return Err(MetadataError::EventEmpty);
    }
    if second < len {
        return Err(MetadataError::TooManyValues);
    }
    Ok((source.to_owned(), event.to_owned()))
}

/// Whether `definition` is what the configuration says of the handler
/// declared for `event` of the source `source`.
///
/// A template is looked up among the templates; it starts at block 0 and has
/// the zero address. Any other handler is looked up among the data sources
/// and has the start block of its source and the address of its source
/// without the first two characters. The network is that of the source, with
/// the endpoint and the request rate that the configuration gives for it.
pub open spec fn defines(
    config: Config,
    source: Seq<char>,
    event: Seq<char>,
    is_template: bool,
    definition: Definition,
) -> bool {
    &&& definition.source@ == source
    &&& definition.event@ == event
    &&& definition.is_template == is_template
    &&& entry_names(config.networks@).index_of_first(definition.network@) matches Some(n)
    &&& definition.rpc_url == config.networks@[n].1.rpc_url
    &&& definition.requests_per_second == config.networks@[n].1.requests_per_second
    &&& if is_template {
        &&& entry_names(config.templates@).index_of_first(source) matches Some(i)
        &&& definition.abi == config.templates@[i].1.abi
        &&& definition.network == config.templates@[i].1.network
        &&& definition.execution_mode == mode_or_default(config.templates@[i].1.execution_mode)
        &&& definition.address == AddressLiteral::Zero
        &&& definition.start_block == 0
    } else {
        &&& entry_names(config.data_sources@).index_of_first(source) matches Some(i)
        &&& definition.abi == config.data_sources@[i].1.abi
        &&& definition.network == config.data_sources@[i].1.network
        &&& definition.execution_mode == mode_or_default(
            config.data_sources@[i].1.execution_mode,
        )
        &&& definition.address matches AddressLiteral::Hex(digits)
        &&& has_prefix(config.data_sources@[i].1.address@)
        &&& digits@ == config.data_sources@[i].1.address@.subrange(
            2,
            config.data_sources@[i].1.address@.len() as int,
        )
        &&& definition.start_block == config.data_sources@[i].1.start_block
    }
}

/// The error that stops the definition of a handler, if there is one. The
/// declaration is read first, then the source is looked up, then its address
/// is cut, then its network is looked up.
pub open spec fn refusal(config: Config, metadata: Seq<char>, is_template: bool) -> Option<
    DefinitionError,
> {
    match parsed(metadata) {
        Err(error) => Some(DefinitionError::Metadata(error)),
        Ok((source, event)) => if is_template {
            match entry_names(config.templates@).index_of_first(source) {
                None => Some(DefinitionError::SourceNotFound),
                Some(i) => if entry_names(config.networks@).index_of_first(
                    config.templates@[i].1.network@,
                ) is None {
                    Some(DefinitionError::NetworkNotFound)
                } else {
                    None
                },
            }
        } else {
            match entry_names(config.data_sources@).index_of_first(source) {
                None => Some(DefinitionError::SourceNotFound),
                Some(i) => if !has_prefix(config.data_sources@[i].1.address@) {
                    Some(DefinitionError::MalformedAddress)
                } else if entry_names(config.networks@).index_of_first(
                    config.data_sources@[i].1.network@,
                ) is None {
                    Some(DefinitionError::NetworkNotFound)
                } else {
                    None
                },
            }
        },
    }
}

/// Defines the handler declared by `metadata`, as a template or as the
/// handler of a data source.
pub fn create_handler(config: &Config, metadata: &str, is_template: bool) -> (result: Result<
    Definition,
    DefinitionError,
>)
    ensures
        match refusal(*config, metadata@, is_template) {
            Some(error) => result == Err::<Definition, DefinitionError>(error),
            None => result matches Ok(definition) && parsed(metadata@) matches Ok(names)
                && defines(*config, names.0, names.1, is_template, definition),
        },
{
    let (source, event) = match get_source_and_event(metadata) {
        Ok(names) => names,
        Err(error) => {
            return Err(DefinitionError::Metadata(error));
        },
    };
    let abi;
    let network;
    let execution_mode;
    let address;
    let start_block;
    if is_template {
        let found = match find_entry(&config.templates, &source) {
            Some(i) => &config.templates[i].1,
            None => {
                return Err(DefinitionError::SourceNotFound);
            },
        };
        abi = found.abi.clone();
        network = found.network.clone();
        execution_mode = or_default(found.execution_mode);
        address = AddressLiteral::Zero;
        start_block = 0u64;
    } else {
        let found = match find_entry(&config.data_sources, &source) {
            Some(i) => &config.data_sources[i].1,
            None => {
                return Err(DefinitionError::SourceNotFound);
            },
        };
        abi = found.abi.clone();
        network = found.network.clone();
        execution_mode = or_default(found.execution_mode);
        let text = found.address.as_str();
        if !text.is_ascii() {
            return Err(DefinitionError::MalformedAddress);
        }
        let len = text.unicode_len();
        if len < 2 {
            return Err(DefinitionError::MalformedAddress);
        }
        address = AddressLiteral::Hex(text.substring_ascii(2, len).to_owned());
        start_block = found.start_block;
    }
    let endpoint = match find_entry(&config.networks, &network) {
        Some(n) => &config.networks[n].1,
        None => {
            return Err(DefinitionError::NetworkNotFound);
        },
    };
    Ok(
        Definition {
            source,
            event,
            is_template,
            abi,
            network,
            rpc_url: endpoint.rpc_url.clone(),
            requests_per_second: endpoint.requests_per_second,
            execution_mode,
            address,
            start_block,
        },
    )
}

/// Defines the handler of a data source declared by `metadata`.
pub fn event_handler(config: &Config, metadata: &str) -> (result: Result<
    Definition,
    DefinitionError,
>)
    ensures
        match refusal(*config, metadata@, false) {
            Some(error) => result == Err::<Definition, DefinitionError>(error),
            None => result matches Ok(definition) && parsed(metadata@) matches Ok(names)
                && defines(*config, names.0, names.1, false, definition),
        },
{
    create_handler(config, metadata, false)
}

/// Defines the template handler declared by `metadata`.
pub fn template(config: &Config, metadata: &str) -> (result: Result<Definition, DefinitionError>)
    ensures
        match refusal(*config, metadata@, true) {
            Some(error) => result == Err::<Definition, DefinitionError>(error),
            None => result matches Ok(definition) && parsed(metadata@) matches Ok(names)
                && defines(*config, names.0, names.1, true, definition),
        },
{
    create_handler(config, metadata, true)
}

/// Defines the block handler declared by `metadata`, which is its name with
/// white space around it. `id` is the caller's key for the handler.
///
/// Fails with `SourceMissing` when the name is empty, else with
/// `SourceNotFound` when the configuration has no block handler of that name.
pub fn block_handler(config: &Config, metadata: &str, id: usize) -> (result: Result<
    BlockHandlerInstance,
    DefinitionError,
>)
    ensures
        if trimmed(metadata@).len() == 0 {
            result == Err::<BlockHandlerInstance, DefinitionError>(DefinitionError::SourceMissing)
        } else {
            match entry_names(config.block_handlers@).index_of_first(trimmed(metadata@)) {
                None => result == Err::<BlockHandlerInstance, DefinitionError>(
                    DefinitionError::SourceNotFound,
                ),
                Some(i) => {
                    &&& result matches Ok(handler)
                    &&& handler.id == id
                    &&& handler.name@ == trimmed(metadata@)
                    &&& handler.network == config.block_handlers@[i].1.network
                    &&& handler.start_block == config.block_handlers@[i].1.start_block
                    &&& handler.step == config.block_handlers@[i].1.step
                    &&& handler.execution_mode == mode_or_default(
                        config.block_handlers@[i].1.execution_mode,
                    )
                },
            }
        },
{
    let name = trim(metadata);
    if name.unicode_len() == 0 {
        return Err(DefinitionError::SourceMissing);
    }
    let name = name.to_owned();
    match find_entry(&config.block_handlers, &name) {
        Some(i) => {
            let found = &config.block_handlers[i].1;
            Ok(
                BlockHandlerInstance {
                    id,
                    name,
                    network: found.network.clone(),
                    start_block: found.start_block,
                    step: found.step,
                    execution_mode: or_default(found.execution_mode),
                },
            )
        },
        None => Err(DefinitionError::SourceNotFound),
    }
}

} // verus!
