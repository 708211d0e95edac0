use agger_node::fetcher::{
    join_parameters, module_request, modules_from_response, parameter_requests, single_value,
    ViewArg, ViewCall, ViewFunction,
};
use agger_node::types::{FetchError, Query, UserQuery};

fn sample_user_query() -> UserQuery {
    UserQuery {
        version: 42,
        sequence_number: 3,
        id: 8,
        user: [2; 32],
        query: Query {
            module_address: vec![0xab; 32],
            module_name: b"coin".to_vec(),
            function_index: 4,
            ty_args: vec![],
            args: vec![],
        },
    }
}

fn assert_call(call: &ViewCall, function: ViewFunction, with_index: bool) {
    assert_eq!(call.function, function);
    assert_eq!(call.version, 42);
    assert_eq!(call.arguments.len(), if with_index { 3 } else { 2 });
    assert!(matches!(&call.arguments[0], ViewArg::Bytes(b) if *b == vec![0xab; 32]));
    assert!(matches!(&call.arguments[1], ViewArg::Bytes(b) if b.as_slice() == b"coin"));
    if with_index {
        assert!(matches!(call.arguments[2], ViewArg::U16(4)));
    }
}

#[test]
fn view_function_names() {
    assert_eq!(ViewFunction::GetModule.name(), "get_module");
    assert_eq!(ViewFunction::GetConfig.name(), "get_config");
    assert_eq!(ViewFunction::GetVk.name(), "get_vk");
    assert_eq!(ViewFunction::GetParam.name(), "get_param");
}

#[test]
fn module_request_is_pinned_to_query_version() {
    let call = module_request(&sample_user_query());
    assert_call(&call, ViewFunction::GetModule, false);
}

#[test]
fn parameter_requests_in_order() {
    let (c, v, p) = parameter_requests(&sample_user_query());
    assert_call(&c, ViewFunction::GetConfig, true);
    assert_call(&v, ViewFunction::GetVk, true);
    assert_call(&p, ViewFunction::GetParam, true);
}

#[test]
fn single_value_takes_the_returned_value() {
    assert_eq!(single_value(vec![7u8]).unwrap(), 7);
    assert!(matches!(single_value(Vec::<u8>::new()), Err(FetchError::MissingViewResult)));
}

#[test]
fn modules_are_the_one_returned_module() {
    let ms = modules_from_response(Ok(vec![vec![1, 2, 3]])).unwrap();
    assert_eq!(ms, vec![vec![1, 2, 3]]);
    assert!(matches!(modules_from_response(Ok(vec![])), Err(FetchError::MissingViewResult)));
    assert!(matches!(
        modules_from_response(Err(FetchError::Transport("x".to_string()))),
        Err(FetchError::Transport(_))
    ));
}

#[test]
fn parameters_keep_order_and_content() {
    let vp = join_parameters(Ok(vec![vec![1]]), Ok(vec![vec![2, 2]]), Ok(vec![vec![3, 3, 3]])).unwrap();
    assert_eq!(vp.config, vec![1]);
    assert_eq!(vp.vk, vec![2, 2]);
    assert_eq!(vp.param, vec![3, 3, 3]);
}

#[test]
fn parameters_fail_if_any_call_fails() {
    let err = || Err(FetchError::Transport("boom".to_string()));
    assert!(join_parameters(err(), Ok(vec![vec![2]]), Ok(vec![vec![3]])).is_err());
    assert!(join_parameters(Ok(vec![vec![1]]), err(), Ok(vec![vec![3]])).is_err());
    assert!(join_parameters(Ok(vec![vec![1]]), Ok(vec![vec![2]]), err()).is_err());
    assert!(matches!(
        join_parameters(Ok(vec![vec![1]]), Ok(vec![]), Ok(vec![vec![3]])),
        Err(FetchError::MissingViewResult)
    ));
}
