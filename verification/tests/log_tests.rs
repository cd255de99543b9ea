use engine_shell::log::{Log, LogMsg, Logger, NewDefaultLogger};

#[test]
fn get_msg_prefixes_severity() {
    assert_eq!(
        LogMsg::Info(String::from("ready")).get_msg(),
        String::from("info:ready")
    );
    assert_eq!(
        LogMsg::Warn(String::from("slow frame")).get_msg(),
        String::from("warn:slow frame")
    );
    assert_eq!(
        LogMsg::Alert(String::from("look here")).get_msg(),
        String::from("alert:look here")
    );
    assert_eq!(
        LogMsg::Error(String::from("lost surface")).get_msg(),
        String::from("error:lost surface")
    );
}

#[test]
fn get_inner_strips_severity() {
    assert_eq!(LogMsg::Info(String::from("a")).get_inner(), String::from("a"));
    assert_eq!(LogMsg::Warn(String::from("b")).get_inner(), String::from("b"));
    assert_eq!(LogMsg::Alert(String::from("c")).get_inner(), String::from("c"));
    assert_eq!(LogMsg::Error(String::from("d")).get_inner(), String::from("d"));
}

#[test]
fn default_logger_starts_empty() {
    let sink = NewDefaultLogger();
    assert_eq!(sink.entries.len(), 0);
}

#[test]
fn sink_records_in_emission_order() {
    let mut sink: Log = NewDefaultLogger();
    sink.info("one");
    sink.warn("two");
    sink.error("three");
    sink.alert("four");
    sink.log(&LogMsg::Warn(String::from("five")));
    let rendered: Vec<String> = sink.entries.iter().map(|e| e.get_msg()).collect();
    assert_eq!(
        rendered,
        vec![
            String::from("info:one"),
            String::from("warn:two"),
            String::from("error:three"),
            String::from("alert:four"),
            String::from("warn:five"),
        ]
    );
}
