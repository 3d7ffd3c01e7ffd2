use mc_docker_bot::dispatch::{Command, EngineRequest, EngineResponse, Reply};
use mc_docker_bot::engine::{minecraft_containers, ContainerSummary, StatusTable};
use mc_docker_bot::registry::ValidContainers;
use mc_docker_bot::reply::{logs_reply, start_reply, status_embed, stop_reply, LOG_TAIL};

fn summary(name: &str, status: &str) -> ContainerSummary {
    ContainerSummary {
        names: Some(vec![name.to_string()]),
        status: Some(status.to_string()),
    }
}

fn fields(pairs: &[(&str, &str)]) -> Vec<(String, String)> {
    pairs.iter().map(|(n, s)| (n.to_string(), s.to_string())).collect()
}

fn lines(ls: &[&str]) -> Vec<String> {
    ls.iter().map(|l| l.to_string()).collect()
}

#[test]
fn status_shows_reported_and_missing() {
    let listed = vec![summary("/creative", "Up 2 hours"), summary("/lobby", "Up 1 hour")];
    let reply = Command::Status.reply(EngineResponse::Listed(listed));
    match reply {
        Some(Reply::Embed(e)) => {
            assert_eq!(e.title, "Minecraft server status");
            assert_eq!(
                e.fields,
                fields(&[
                    ("velocity", "Missing"),
                    ("creative", "Up 2 hours"),
                    ("survival", "Missing"),
                    ("oneblock", "Missing"),
                    ("skyblock", "Missing"),
                ])
            );
        }
        other => panic!("unexpected reply {:?}", other),
    }
}

#[test]
fn status_embed_all_reported() {
    let listed = vec![
        summary("/skyblock", "Up 1 minute"),
        summary("/oneblock", "Exited (0) 3 days ago"),
        summary("/survival", "Up 2 days"),
        summary("/creative", "Created"),
        summary("/velocity", "Up 10 hours"),
    ];
    let e = status_embed(&minecraft_containers(&listed));
    assert_eq!(
        e.fields,
        fields(&[
            ("velocity", "Up 10 hours"),
            ("creative", "Created"),
            ("survival", "Up 2 days"),
            ("oneblock", "Exited (0) 3 days ago"),
            ("skyblock", "Up 1 minute"),
        ])
    );
}

#[test]
fn status_embed_of_empty_table() {
    let e = status_embed(&StatusTable::new());
    assert_eq!(e.fields.len(), 5);
    assert!(e.fields.iter().all(|(_, s)| s == "Missing"));
}

#[test]
fn start_survival_succeeds() {
    let reply = Command::Start(ValidContainers::Survival).reply(EngineResponse::Done(true));
    assert_eq!(reply, Some(Reply::Text("survival: started".to_string())));
}

#[test]
fn start_and_stop_texts() {
    assert_eq!(start_reply(ValidContainers::Velocity, true), "velocity: started");
    assert_eq!(start_reply(ValidContainers::Velocity, false), "velocity: failed to start");
    assert_eq!(stop_reply(ValidContainers::OneBlock, true), "oneblock: stopped");
    assert_eq!(stop_reply(ValidContainers::OneBlock, false), "oneblock: failed to stop");
}

#[test]
fn stop_replies_follow_outcome() {
    let cmd = Command::Stop(ValidContainers::SkyBlock);
    assert_eq!(cmd.reply(EngineResponse::Done(true)), Some(Reply::Text("skyblock: stopped".to_string())));
    assert_eq!(
        cmd.reply(EngineResponse::Done(false)),
        Some(Reply::Text("skyblock: failed to stop".to_string()))
    );
}

#[test]
fn logs_velocity_three_lines() {
    let reply = Command::Logs(ValidContainers::Velocity).reply(EngineResponse::LogLines(lines(&["a", "b", "c"])));
    assert_eq!(reply, Some(Reply::Text("```a\nb\nc```".to_string())));
}

#[test]
fn logs_of_no_lines_is_empty_block() {
    assert_eq!(logs_reply(&vec![]), "``````");
}

#[test]
fn logs_of_one_line() {
    assert_eq!(logs_reply(&lines(&["[Server] Done (3.2s)!"])), "```[Server] Done (3.2s)!```");
}

#[test]
fn logs_keep_the_last_ten() {
    let many: Vec<String> = (1..=12).map(|i| format!("l{}", i)).collect();
    assert_eq!(logs_reply(&many), "```l3\nl4\nl5\nl6\nl7\nl8\nl9\nl10\nl11\nl12```");
    let ten: Vec<String> = (1..=10).map(|i| format!("l{}", i)).collect();
    assert_eq!(logs_reply(&ten), "```l1\nl2\nl3\nl4\nl5\nl6\nl7\nl8\nl9\nl10```");
}

#[test]
fn engine_requests() {
    assert_eq!(Command::Status.engine_request(), EngineRequest::ListContainers { all: true });
    assert_eq!(
        Command::Start(ValidContainers::Creative).engine_request(),
        EngineRequest::StartContainer { container: ValidContainers::Creative }
    );
    assert_eq!(
        Command::Stop(ValidContainers::Survival).engine_request(),
        EngineRequest::StopContainer { container: ValidContainers::Survival }
    );
    assert_eq!(
        Command::Logs(ValidContainers::Velocity).engine_request(),
        EngineRequest::FetchLogs {
            container: ValidContainers::Velocity,
            stdout: true,
            stderr: true,
            timestamps: false,
            tail: 10,
        }
    );
    assert_eq!(LOG_TAIL, 10);
}

#[test]
fn operation_and_target() {
    assert_eq!(Command::Status.operation(), "status");
    assert_eq!(Command::Start(ValidContainers::Creative).operation(), "start");
    assert_eq!(Command::Stop(ValidContainers::Creative).operation(), "stop");
    assert_eq!(Command::Logs(ValidContainers::Creative).operation(), "logs");
    assert_eq!(Command::Status.target(), None);
    assert_eq!(Command::Logs(ValidContainers::OneBlock).target(), Some(ValidContainers::OneBlock));
}

#[test]
fn mismatched_response_gives_no_reply() {
    assert_eq!(Command::Status.reply(EngineResponse::Done(true)), None);
    assert_eq!(Command::Start(ValidContainers::Creative).reply(EngineResponse::LogLines(vec![])), None);
    assert_eq!(Command::Logs(ValidContainers::Creative).reply(EngineResponse::Listed(vec![])), None);
}
