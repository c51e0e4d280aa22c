use krun_cgroups::controller::{ArgType, Controller, ControllerOpt, PropertySet, PropertyValue};
use krun_cgroups::pids::Pids;
use krun_cgroups::runtime::{LinuxPids, LinuxResources};

fn setup(resources: &LinuxResources) -> (ControllerOpt<'_>, PropertySet) {
    let properties = PropertySet::new();
    let options = ControllerOpt {
        resources,
        disable_oom_killer: false,
        oom_score_adj: None,
        freezer_state: None,
    };

    (options, properties)
}

fn with_limit(limit: i64) -> LinuxResources {
    LinuxResources {
        devices: None,
        pids: Some(LinuxPids { limit }),
    }
}

#[test]
fn test_pids_positive_limit() -> Result<(), String> {
    let resources = with_limit(10);
    let (options, mut properties) = setup(&resources);

    <Pids as Controller>::apply(&options, 245, &mut properties)
        .map_err(|e| format!("apply pids: {e:?}"))?;

    assert_eq!(properties.len(), 1);
    assert!(properties.contains_key("TasksMax"));

    let task_max = properties.get("TasksMax").unwrap();
    assert_eq!(task_max.arg_type(), ArgType::UInt64);
    assert_eq!(task_max.as_u64().unwrap(), 10);

    Ok(())
}

#[test]
fn test_pids_zero_limit() -> Result<(), String> {
    let resources = with_limit(0);
    let (options, mut properties) = setup(&resources);

    <Pids as Controller>::apply(&options, 245, &mut properties)
        .map_err(|e| format!("apply pids: {e:?}"))?;

    assert_eq!(properties.len(), 1);
    assert!(properties.contains_key("TasksMax"));

    let task_max = properties.get("TasksMax").unwrap();
    assert_eq!(task_max.arg_type(), ArgType::UInt64);
    assert_eq!(task_max.as_u64().unwrap(), u64::MAX);

    Ok(())
}

#[test]
fn test_pids_negative_limit() -> Result<(), String> {
    let resources = with_limit(-500);
    let (options, mut properties) = setup(&resources);

    <Pids as Controller>::apply(&options, 245, &mut properties)
        .map_err(|e| format!("apply pids: {e:?}"))?;

    assert_eq!(properties.len(), 1);
    assert!(properties.contains_key("TasksMax"));

    let task_max = properties.get("TasksMax").unwrap();
    assert_eq!(task_max.arg_type(), ArgType::UInt64);
    assert_eq!(task_max.as_u64().unwrap(), u64::MAX);

    Ok(())
}

#[test]
fn pids_largest_limit_is_kept() {
    let resources = with_limit(i64::MAX);
    let (options, mut properties) = setup(&resources);
    <Pids as Controller>::apply(&options, 1, &mut properties).unwrap();
    assert_eq!(
        properties.get("TasksMax").unwrap().as_u64(),
        Some(i64::MAX as u64)
    );
}

#[test]
fn pids_smallest_limit_means_unlimited() {
    let resources = with_limit(i64::MIN);
    let (options, mut properties) = setup(&resources);
    <Pids as Controller>::apply(&options, 1, &mut properties).unwrap();
    assert_eq!(properties.get("TasksMax").unwrap().as_u64(), Some(u64::MAX));
}

#[test]
fn pids_absent_inserts_nothing() {
    let resources = LinuxResources {
        devices: None,
        pids: None,
    };
    let (options, mut properties) = setup(&resources);
    properties.insert("CPUWeight".to_string(), PropertyValue::UInt64(100));
    <Pids as Controller>::apply(&options, 245, &mut properties).unwrap();
    assert_eq!(properties.len(), 1);
    assert!(!properties.contains_key("TasksMax"));
    assert_eq!(
        properties.get("CPUWeight"),
        Some(&PropertyValue::UInt64(100))
    );
}

#[test]
fn pids_replaces_earlier_value() {
    let resources = with_limit(7);
    let (options, mut properties) = setup(&resources);
    properties.insert("TasksMax".to_string(), PropertyValue::UInt64(3));
    <Pids as Controller>::apply(&options, 245, &mut properties).unwrap();
    assert_eq!(properties.len(), 1);
    assert_eq!(properties.get("TasksMax").unwrap().as_u64(), Some(7));
}

#[test]
fn pids_apply_limit_directly() {
    let mut properties = PropertySet::new();
    Pids::apply_limit(&LinuxPids { limit: 42 }, &mut properties).unwrap();
    assert_eq!(properties.get("TasksMax").unwrap().as_u64(), Some(42));
}

#[test]
fn property_set_holds_other_types() {
    let mut properties = PropertySet::new();
    properties.insert("A".to_string(), PropertyValue::Boolean(true));
    properties.insert("B".to_string(), PropertyValue::Int64(-3));
    properties.insert("C".to_string(), PropertyValue::Str("x".to_string()));
    properties.insert("A".to_string(), PropertyValue::Boolean(false));
    assert_eq!(properties.len(), 3);
    assert_eq!(properties.get("A").unwrap().arg_type(), ArgType::Boolean);
    assert_eq!(properties.get("A"), Some(&PropertyValue::Boolean(false)));
    assert_eq!(properties.get("B").unwrap().arg_type(), ArgType::Int64);
    assert_eq!(properties.get("B").unwrap().as_u64(), None);
    assert_eq!(properties.get("C").unwrap().arg_type(), ArgType::Str);
    assert!(properties.get("D").is_none());
}
