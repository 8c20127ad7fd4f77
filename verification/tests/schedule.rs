use lineage_core::shell::schedule::{
    command_output, create_args, delete_args, query_args, register_result, unregister_result, INTERVAL_MINUTES,
    TASK_NAME,
};

#[test]
fn the_task_is_created_every_fifteen_minutes_replacing_an_old_one() {
    assert_eq!(
        create_args(r"C:\Program Files\lineage\agentos.exe"),
        vec![
            "/Create",
            "/TN",
            "lineage-automation",
            "/TR",
            r#""C:\Program Files\lineage\agentos.exe" tick"#,
            "/SC",
            "MINUTE",
            "/MO",
            "15",
            "/F",
        ]
    );
    assert_eq!(INTERVAL_MINUTES, 15);
}

#[test]
fn the_task_is_queried_and_deleted_by_name() {
    assert_eq!(query_args(), vec!["/Query", "/TN", TASK_NAME]);
    assert_eq!(delete_args(), vec!["/Delete", "/TN", "lineage-automation", "/F"]);
}

#[test]
fn the_output_joins_both_streams_trimmed() {
    assert_eq!(command_output("  SUCCESS: done\n", ""), "SUCCESS: done");
    assert_eq!(command_output("out ", " err\r\n"), "out  err");
    assert_eq!(command_output("", ""), "");
}

#[test]
fn registering_fails_with_what_schtasks_said() {
    assert_eq!(register_result(true, "SUCCESS"), Ok(()));
    assert_eq!(
        register_result(false, "ERROR: Access is denied."),
        Err("定期実行を登録できませんでした: ERROR: Access is denied.".to_string())
    );
}

#[test]
fn removing_a_missing_task_is_a_success() {
    assert_eq!(unregister_result(true, ""), Ok(()));
    assert_eq!(
        unregister_result(false, "ERROR: The system cannot find the file specified."),
        Ok(())
    );
    assert_eq!(
        unregister_result(false, "ERROR: Access is denied."),
        Err("定期実行を解除できませんでした: ERROR: Access is denied.".to_string())
    );
}
