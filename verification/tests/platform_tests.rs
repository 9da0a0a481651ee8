use timer_lib::single_instance::SingleInstance;
use timer_lib::system::{execute_action, execute_system_action, failure_message, SystemAction};

#[test]
fn test_single_instance() {
    let instance1 = SingleInstance::new();
    assert!(instance1.is_some());
}

#[test]
fn mutex_probe_decides_instance() {
    assert!(SingleInstance::from_mutex_probe(true, false, 0).is_none());
    assert!(SingleInstance::from_mutex_probe(false, false, 183).is_none());
    let first = SingleInstance::from_mutex_probe(false, true, 0).unwrap();
    assert!(first.is_first());
    assert!(SingleInstance::from_mutex_probe(false, false, 5).is_some());
}

#[test]
fn test_execute_system_action() {
    let result = execute_system_action("invalid");
    assert!(result.is_err());
}

#[test]
fn system_actions_by_name() {
    assert_eq!(execute_system_action("lock"), Ok(SystemAction::Lock));
    assert_eq!(execute_system_action("suspend"), Ok(SystemAction::Suspend));
    assert_eq!(execute_system_action("shutdown"), Ok(SystemAction::Shutdown));
    assert_eq!(execute_action("reboot"), Err("未知的操作类型: reboot".to_string()));
    assert_eq!(
        failure_message(SystemAction::Shutdown, "denied"),
        "关机失败: denied。请确保以管理员权限运行"
    );
}
