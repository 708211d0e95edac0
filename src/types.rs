use vstd::prelude::*;

verus! {

/// Circuit sizing bounds; `None` leaves the circuit's own default in place.
#[derive(Copy, Clone, Debug)]
pub struct CircuitConfig {
    pub max_step_row: Option<usize>,
    pub stack_ops_num: Option<usize>,
    pub locals_ops_num: Option<usize>,
    pub global_ops_num: Option<usize>,
    pub max_frame_index: Option<usize>,
    pub max_locals_size: Option<usize>,
    pub max_stack_size: Option<usize>,
    pub word_size: Option<usize>,
}

impl Default for CircuitConfig {
    fn default() -> (r: CircuitConfig)
        ensures
            r.max_step_row is None,
            r.stack_ops_num is None,
            r.locals_ops_num is None,
            r.global_ops_num is None,
            r.max_frame_index is None,
            r.max_locals_size is None,
            r.max_stack_size is None,
            r.word_size is None,
    {
        CircuitConfig {
            max_step_row: None,
            stack_ops_num: None,
            locals_ops_num: None,
            global_ops_num: None,
            max_frame_index: None,
            max_locals_size: None,
            max_stack_size: None,
            word_size: None,
        }
    }
}

} // verus!

verus! {

/// A 32-byte on-chain account address.
pub type AccountAddress = [u8; 32];

/// A request to prove one execution of an entry function.
#[derive(Clone, Debug)]
pub struct Query {
    pub module_address: Vec<u8>,
    pub module_name: Vec<u8>,
    /// Position of the target in the module's function-definition table.
    pub function_index: u16,
    /// Type arguments, each in its textual encoding.
    pub ty_args: Vec<Vec<u8>>,
    /// Value arguments, each in its textual encoding (such as `u64:10`).
    pub args: Vec<Vec<u8>>,
}

/// A query together with where and when it was recorded on chain.
#[derive(Clone, Debug)]
pub struct UserQuery {
    /// Chain version at which every read behind this record was made.
    pub version: u64,
    pub sequence_number: u64,
    pub id: u64,
    pub user: AccountAddress,
    pub query: Query,
}

/// The payload of a new-query event: which user recorded which query id.
#[derive(Copy, Clone, Debug, PartialEq, Eq)]
pub struct NewQueryEvent {
    pub id: u64,
    pub user: AccountAddress,
}

/// A decoded new-query event together with its place on chain.
#[derive(Copy, Clone, Debug, PartialEq, Eq)]
pub struct VersionedQueryEvent {
    pub version: u64,
    pub sequence_number: u64,
    pub event: NewQueryEvent,
}

/// The published (config, verifying key, param) blobs of one entry function.
#[derive(Clone, Debug)]
pub struct VerificationParameters {
    pub config: Vec<u8>,
    pub vk: Vec<u8>,
    pub param: Vec<u8>,
}

/// Where the query contract lives.
#[derive(Clone, Debug)]
pub struct AggerQueryParam {
    pub aggger_address: AccountAddress,
}

/// Static arguments of a sample run, in their textual encodings.
#[derive(Clone, Debug)]
pub struct DemoRunConfig {
    pub args: Option<Vec<String>>,
    pub ty_args: Option<Vec<String>>,
}

/// One provable entry-function variant.
#[derive(Clone, Debug)]
pub struct EntryFunctionConfig {
    pub entry_function: String,
    pub demo_run_config: DemoRunConfig,
    pub circuit_config: CircuitConfig,
}

/// The input of a verifying-key batch.
pub struct PublishModulesConfig {
    pub modules: Vec<Vec<u8>>,
    pub entry_function_config: Vec<EntryFunctionConfig>,
}

/// Why a remote read failed.
#[derive(Clone, Debug)]
pub enum FetchError {
    /// The transport or the endpoint reported a failure.
    Transport(String),
    /// A payload could not be decoded.
    Malformed(String),
    /// A view call that must return one value returned none.
    MissingViewResult,
    /// A response that does not answer the request that was made.
    UnexpectedResponse,
}

} // verus!
