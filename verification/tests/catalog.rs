use athen::pyinterface::resolve_outcome;
use athen::pyinterface::render_result;
use athen::pyinterface::call_arguments;
use athen::pyinterface::CallArguments;
use athen::pyinterface::CallOutcome;
use athen::pyinterface::EventLoopHandle;
use athen::pyinterface::FunctionHandle;
use athen::pyinterface::PyExecutionError;
use athen::pyinterface::PyRegisterDecorator;
use athen::pyinterface::Registry;
use athen::pyinterface::ResolveStep;
use athen::query::QueryData;
use athen::reader::HydratedConfig;
use athen::route_handler::create_route;
use athen::route_handler::index;
use athen::route_handler::initiate;
use athen::route_handler::DataDocument;
use athen::route_handler::GlobalCollection;

fn config_of(docs: Vec<(&str, &str)>, safe_async: bool) -> HydratedConfig {
    let documents: Vec<(String, String)> =
        docs.iter().map(|(n, p)| (n.to_string(), p.to_string())).collect();
    HydratedConfig::new("127.0.0.1".to_string(), 8000, documents, safe_async)
}

fn reg(mode: &str, id: u64) -> PyRegisterDecorator {
    PyRegisterDecorator::new(FunctionHandle { id }, mode.to_string())
}

#[test]
fn registry_is_append_only_and_ordered() {
    let mut registry = Registry::new();
    registry.push_register_decorators(reg("run", 1));
    registry.push_register_decorators(reg("init", 2));
    {
        let items = registry.get_register_decorators();
        assert_eq!(items.len(), 2);
        assert_eq!(items[0].get_mode(), "run");
        assert_eq!(items[0].get_wraps().id, 1);
        assert_eq!(items[1].get_mode(), "init");
    }
    let frozen = registry.freeze();
    assert_eq!(frozen.len(), 2);
    assert_eq!(frozen[1].get_wraps().id, 2);
}

#[test]
fn one_registration_per_document_in_order() {
    let config = config_of(vec![("alpha", "a.py"), ("beta", "b.py")], false);
    let regs = vec![reg("run", 10), reg("run", 20)];
    let plan = match initiate(config, None, regs) {
        Ok(p) => p,
        Err(_) => panic!("count matches, startup must go ahead"),
    };
    assert_eq!(plan.routes.len(), 2);
    assert_eq!(plan.routes[0].document_name, "alpha");
    assert_eq!(plan.routes[1].document_name, "beta");
    assert_eq!(plan.init_calls.len(), 0);
    assert!(plan.collection.has_document("alpha"));
    assert_eq!(plan.collection.get_document("alpha").get_function().id, 10);
    assert_eq!(plan.collection.get_document("beta").get_function().id, 20);
}

#[test]
fn count_mismatch_aborts_startup() {
    let config = config_of(vec![("alpha", "a.py"), ("beta", "b.py")], false);
    assert!(initiate(config, None, vec![reg("run", 10)]).is_err());
    let config = config_of(vec![("alpha", "a.py")], false);
    assert!(initiate(config, None, vec![reg("run", 1), reg("run", 2)]).is_err());
    let config = config_of(vec![], false);
    assert!(initiate(config, None, vec![]).is_ok());
}

#[test]
fn init_documents_get_no_route_and_one_init_call() {
    let config = config_of(vec![("setup", "s.py"), ("serve", "r.py"), ("late", "l.py")], false);
    let regs = vec![reg("init", 1), reg("run", 2), reg("init", 3)];
    let plan = initiate(config, None, regs).ok().unwrap();
    assert_eq!(plan.routes.len(), 1);
    assert_eq!(plan.routes[0].document_name, "serve");
    assert_eq!(plan.routes[0].path, "/serve/<query>");
    assert!(!plan.collection.has_document("setup"));
    assert!(!plan.collection.has_document("late"));
    assert!(plan.collection.has_document("serve"));
    assert_eq!(plan.init_calls.len(), 2);
    assert_eq!(plan.init_calls[0].id, 1);
    assert_eq!(plan.init_calls[1].id, 3);
}

#[test]
fn event_loop_is_kept_when_safe_async() {
    let config = config_of(vec![("d", "d.py")], true);
    let plan = initiate(config, Some(EventLoopHandle { id: 7 }), vec![reg("run", 1)])
        .ok()
        .unwrap();
    assert_eq!(plan.routes.len(), 1);
    assert_eq!(plan.collection.get_config().get_safe_async(), true);
}

#[test]
fn route_path_shape() {
    let route = create_route("hello");
    assert_eq!(route.path, "/hello/<query>");
    assert_eq!(route.document_name, "hello");
}

#[test]
fn collection_insert_and_lookup() {
    let config = config_of(vec![], false);
    let mut collection = GlobalCollection::new(config, None);
    assert!(!collection.has_document("a"));
    collection.insert_document(DataDocument::new("a".to_string(), FunctionHandle { id: 1 }));
    collection.insert_document(DataDocument::new("b".to_string(), FunctionHandle { id: 2 }));
    assert!(collection.has_document("a"));
    assert_eq!(collection.get_document("b").get_function().id, 2);
    assert_eq!(collection.get_document("b").get_name(), "b");
    collection.insert_document(DataDocument::new("a".to_string(), FunctionHandle { id: 9 }));
    assert_eq!(collection.get_document("a").get_function().id, 9);
}

#[test]
fn immediate_and_driven_results_resolve_alike() {
    let value = athen::pyinterface::PyValue { id: 5 };
    let coroutine = athen::pyinterface::PyValue { id: 6 };
    let event_loop = EventLoopHandle { id: 1 };

    match resolve_outcome(CallOutcome::Immediate(value), Some(event_loop)) {
        Ok(ResolveStep::Resolved(v)) => assert_eq!(v.id, 5),
        _ => panic!("an immediate value is final"),
    }
    match resolve_outcome(CallOutcome::Pending(coroutine), Some(event_loop)) {
        Ok(ResolveStep::Drive(c, l)) => {
            assert_eq!(c.id, 6);
            assert_eq!(l.id, 1);
        },
        _ => panic!("a pending result is driven on the loop"),
    }

    let rendered = "Hello World!".to_string();
    assert_eq!(render_result(Ok(rendered.clone())), render_result(Ok(rendered)));
}

#[test]
fn pending_without_loop_is_an_error() {
    let coroutine = athen::pyinterface::PyValue { id: 6 };
    assert!(resolve_outcome(CallOutcome::Pending(coroutine), None).is_err());
}

#[test]
fn failures_render_as_empty_body() {
    let err = PyExecutionError { message: "boom".to_string() };
    assert_eq!(render_result(Err(err)), "");
    assert_eq!(render_result(Ok("body".to_string())), "body");
}

#[test]
fn init_hooks_are_called_with_no_arguments() {
    let payload = QueryData::new();
    match call_arguments(payload, true) {
        CallArguments::NoArguments => {},
        _ => panic!("init hooks take no arguments"),
    }
    let mut payload = QueryData::new();
    payload.insert("k".to_string(), athen::query::QueryItem::Number("1".to_string()));
    match call_arguments(payload, false) {
        CallArguments::OneArgument(q) => assert!(q.get("k").is_some()),
        _ => panic!("routed functions take the payload"),
    }
}

#[test]
fn hello_world_scenario() {
    let config = config_of(vec![("hello", "endpoints/hello.py")], true);
    let plan = initiate(config, Some(EventLoopHandle { id: 0 }), vec![reg("run", 42)])
        .ok()
        .unwrap();
    assert_eq!(plan.routes.len(), 1);
    assert_eq!(plan.routes[0].path, "/hello/<query>");

    let payload = athen::query::extract_query("q={}");
    assert!(payload.is_empty());

    let document = plan.collection.get_document("hello");
    assert_eq!(document.get_function().id, 42);

    let body = render_result(Ok("Hello World!".to_string()));
    assert_eq!(body, "Hello World!");

    assert_eq!(index(), "Hello World");
}
