use vstd::prelude::*;

use crate::types::{FetchError, UserQuery, VerificationParameters};

verus! {

/// The view functions that the query contract publishes.
#[derive(Copy, Clone, Debug, PartialEq, Eq)]
pub enum ViewFunction {
    GetModule,
    GetConfig,
    GetVk,
    GetParam,
}

impl ViewFunction {
    pub open spec fn name_spec(self) -> &'static str {
        match self {
            ViewFunction::GetModule => "get_module",
            ViewFunction::GetConfig => "get_config",
            ViewFunction::GetVk => "get_vk",
            ViewFunction::GetParam => "get_param",
        }
    }

    /// The function's name in the contract.
    pub fn name(&self) -> (r: &'static str)
        ensures
            r == self.name_spec(),
    {
        match self {
            ViewFunction::GetModule => "get_module",
            ViewFunction::GetConfig => "get_config",
            ViewFunction::GetVk => "get_vk",
            ViewFunction::GetParam => "get_param",
        }
    }
}

/// One argument of a view call.
#[derive(Clone, Debug)]
pub enum ViewArg {
    Bytes(Vec<u8>),
    U16(u16),
}

/// A read-only call of a view function of the query contract, pinned to a version.
#[derive(Clone, Debug)]
pub struct ViewCall {
    pub function: ViewFunction,
    pub arguments: Vec<ViewArg>,
    pub version: u64,
}

/// `arg` is the byte string `b`.
pub open spec fn is_bytes_arg(arg: ViewArg, b: Seq<u8>) -> bool {
    arg matches ViewArg::Bytes(v) && v@ == b
}

/// `call` asks `function` about the query's module at the query's version;
/// with `with_index`, about the query's function in it.
pub open spec fn asks_about(call: ViewCall, function: ViewFunction, uq: UserQuery, with_index: bool) -> bool {
    &&& call.function == function
    &&& call.version == uq.version
    &&& call.arguments@.len() == if with_index { 3nat } else { 2nat }
    &&& is_bytes_arg(call.arguments@[0], uq.query.module_address@)
    &&& is_bytes_arg(call.arguments@[1], uq.query.module_name@)
    &&& with_index ==> call.arguments@[2] == ViewArg::U16(uq.query.function_index)
}

pub(crate) fn copy_bytes(b: &Vec<u8>) -> (r: Vec<u8>)
    ensures
        r@ == b@,
{
    let mut r: Vec<u8> = Vec::with_capacity(b.len());
    let mut i: usize = 0;
    while i < b.len()
        invariant
            i <= b@.len(),
            r@ == b@.subrange(0, i as int),
        decreases b@.len() - i,
    {
        r.push(b[i]);
        i = i + 1;
    }
    assert(r@ =~= b@);
    r
}

fn module_call(function: ViewFunction, uq: &UserQuery, with_index: bool) -> (r: ViewCall)
    ensures
        asks_about(r, function, *uq, with_index),
{
    let mut arguments: Vec<ViewArg> = Vec::new();
    arguments.push(ViewArg::Bytes(copy_bytes(&uq.query.module_address)));
    arguments.push(ViewArg::Bytes(copy_bytes(&uq.query.module_name)));
    if with_index {
        arguments.push(ViewArg::U16(uq.query.function_index));
    }
    ViewCall { function, arguments, version: uq.version }
}

/// The call that fetches the bytecode of the query's module.
pub fn module_request(uq: &UserQuery) -> (r: ViewCall)
    ensures
        asks_about(r, ViewFunction::GetModule, *uq, false),
{
    module_call(ViewFunction::GetModule, uq, false)
}

/// The three calls that fetch the config, the verifying key and the param of
/// the query's function, in that order.
pub fn parameter_requests(uq: &UserQuery) -> (r: (ViewCall, ViewCall, ViewCall))
    ensures
        asks_about(r.0, ViewFunction::GetConfig, *uq, true),
        asks_about(r.1, ViewFunction::GetVk, *uq, true),
        asks_about(r.2, ViewFunction::GetParam, *uq, true),
{
    (
        module_call(ViewFunction::GetConfig, uq, true),
        module_call(ViewFunction::GetVk, uq, true),
        module_call(ViewFunction::GetParam, uq, true),
    )
}

/// What a view call that must return one value gives: its last returned
/// value, or `MissingViewResult` when it returned none.
pub open spec fn single_value_spec<T>(values: Seq<T>) -> Result<T, FetchError> {
    if values.len() == 0 {
        Err(FetchError::MissingViewResult)
    } else {
        Ok(values.last())
    }
}

/// The one value of a view call's result.
pub fn single_value<T>(values: Vec<T>) -> (r: Result<T, FetchError>)
    ensures
        r == single_value_spec(values@),
{
    let mut values = values;
    match values.pop() {
        Some(v) => Ok(v),
        None => Err(FetchError::MissingViewResult),
    }
}

/// The value of one answered view call: its failure, or its one value.
pub open spec fn view_value_spec(resp: Result<Vec<Vec<u8>>, FetchError>) -> Result<Vec<u8>, FetchError> {
    match resp {
        Err(e) => Err(e),
        Ok(values) => single_value_spec(values@),
    }
}

/// The modules that a query needs: the one module that the module call returned.
pub fn modules_from_response(resp: Result<Vec<Vec<u8>>, FetchError>) -> (r: Result<Vec<Vec<u8>>, FetchError>)
    ensures
        match view_value_spec(resp) {
            Ok(m) => r matches Ok(ms) && ms@ == seq![m],
            Err(e) => r == Err::<Vec<Vec<u8>>, FetchError>(e),
        },
{
    match resp {
        Err(e) => Err(e),
        Ok(values) => match single_value(values) {
            Ok(m) => {
                let mut ms: Vec<Vec<u8>> = Vec::new();
                ms.push(m);
                Ok(ms)
            },
            Err(e) => Err(e),
        },
    }
}

/// The parameters of a query's function from the answers of the config, key
/// and param calls: all three values in that order, or the first failure
/// among them; nothing is returned unless all three succeeded.
pub fn join_parameters(
    config: Result<Vec<Vec<u8>>, FetchError>,
    vk: Result<Vec<Vec<u8>>, FetchError>,
    param: Result<Vec<Vec<u8>>, FetchError>,
) -> (r: Result<VerificationParameters, FetchError>)
    ensures
        match (view_value_spec(config), view_value_spec(vk), view_value_spec(param)) {
            (Ok(c), Ok(v), Ok(p)) => r matches Ok(vp) && vp.config == c && vp.vk == v && vp.param == p,
            (Err(e), _, _) => r == Err::<VerificationParameters, FetchError>(e),
            (Ok(_), Err(e), _) => r == Err::<VerificationParameters, FetchError>(e),
            (Ok(_), Ok(_), Err(e)) => r == Err::<VerificationParameters, FetchError>(e),
        },
{
    let config = match config {
        Err(e) => return Err(e),
        Ok(values) => single_value(values),
    };
    let config = match config {
        Err(e) => return Err(e),
        Ok(c) => c,
    };
    let vk = match vk {
        Err(e) => return Err(e),
        Ok(values) => single_value(values),
    };
    let vk = match vk {
        Err(e) => return Err(e),
        Ok(v) => v,
    };
    let param = match param {
        Err(e) => return Err(e),
        Ok(values) => single_value(values),
    };
    match param {
        Err(e) => Err(e),
        Ok(p) => Ok(VerificationParameters { config, vk, param: p }),
    }
}

} // verus!
