use vulcan_agent::error::ToolError;
use vulcan_agent::registry::ToolRegistry;
use vulcan_agent::tools::{ApprovalClass, CancellationSupport, IsolationLevel, ToolDescriptor};

fn make_descriptor(name: &str) -> ToolDescriptor {
    ToolDescriptor {
        name: name.to_string(),
        description: String::new(),
        input_schema: serde_json::Value::Object(Default::default()),
        approval_class: ApprovalClass::Never,
        isolation_level: IsolationLevel::InProcess,
        cancellation_support: CancellationSupport::Unsupported,
    }
}

#[test]
fn test_register_and_list() {
    let mut reg = ToolRegistry::new();
    reg.register(make_descriptor("read")).unwrap();
    reg.register(make_descriptor("write")).unwrap();
    assert_eq!(reg.list().len(), 2);
}

#[test]
fn test_register_collision() {
    let mut reg = ToolRegistry::new();
    reg.register(make_descriptor("read")).unwrap();
    let err = reg.register(make_descriptor("read")).unwrap_err();
    assert!(matches!(err, ToolError::Conflict(_)));
}

#[test]
fn test_get() {
    let mut reg = ToolRegistry::new();
    reg.register(make_descriptor("read")).unwrap();
    assert!(reg.get("read").is_some());
    assert!(reg.get("nonexistent").is_none());
}

#[test]
fn collision_keeps_the_first_tool_and_names_the_tool() {
    let mut reg = ToolRegistry::default();
    let mut first = make_descriptor("bash");
    first.description = "first".into();
    reg.register(first).unwrap();
    let mut second = make_descriptor("bash");
    second.description = "second".into();
    match reg.register(second) {
        Err(ToolError::Conflict(m)) => assert_eq!(m, "Tool 'bash' already registered"),
        Ok(()) => panic!("second registration accepted"),
    }
    assert_eq!(reg.get("bash").unwrap().description, "first");
    assert_eq!(reg.list().len(), 1);
}

#[test]
fn each_registration_adds_one_listed_tool() {
    let mut reg = ToolRegistry::new();
    assert_eq!(reg.list().len(), 0);
    for (n, name) in ["read", "write", "edit", "bash"].iter().enumerate() {
        reg.register(make_descriptor(name)).unwrap();
        assert_eq!(reg.list().len(), n + 1);
    }
    assert!(reg.register(make_descriptor("edit")).is_err());
    assert_eq!(reg.list().len(), 4);
}

#[test]
fn register_then_get_returns_the_descriptor_and_keeps_others() {
    let mut reg = ToolRegistry::new();
    let mut grep = make_descriptor("grep");
    grep.approval_class = ApprovalClass::Always;
    reg.register(make_descriptor("glob")).unwrap();
    reg.register(grep).unwrap();
    assert_eq!(reg.get("grep").unwrap().approval_class, ApprovalClass::Always);
    assert_eq!(reg.get("glob").unwrap().name, "glob");
    let mut names: Vec<String> = reg.list().iter().map(|d| d.name.clone()).collect();
    names.sort();
    assert_eq!(names, vec!["glob".to_string(), "grep".to_string()]);
}
