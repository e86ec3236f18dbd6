use x9_transfer::dashboard::{Dashboard, Flow, Status, LOG_LIMIT, QUIT_LINGER_MS};
use x9_transfer::events::{AppEvent, TransferStat};

fn log(s: &str) -> AppEvent {
    AppEvent::Log(s.to_string())
}

#[test]
fn starts_with_welcome_line() {
    let d = Dashboard::new();
    assert_eq!(d.logs().len(), 1);
    assert_eq!(d.logs()[0], "Aplicacao x9 iniciada. Aperte Q, ESC ou Ctrl+C para sair.");
    assert_eq!(d.status(), Status::Preparing);
    assert_eq!(d.status_line(), "Preparando transferencia em streaming...");
    assert_eq!(d.current_file(), None);
    assert_eq!((d.completed(), d.skipped(), d.failed()), (0, 0, 0));
    assert_eq!(d.active_transfer_label(), "Nenhum arquivo sendo transferido no momento...");
}

#[test]
fn copying_log_switches_status() {
    let mut d = Dashboard::new();
    assert_eq!(d.apply(log("Copiando: /a/b.txt")), Flow::Continue);
    assert_eq!(d.status(), Status::Transferring);
    assert_eq!(d.status_line(), "Transferindo arquivo...");
    assert_eq!(d.logs().last().unwrap(), "Copiando: /a/b.txt");
}

#[test]
fn marker_found_inside_message() {
    let mut d = Dashboard::new();
    d.apply(log("xx Copiando:yy"));
    assert_eq!(d.status(), Status::Transferring);
}

#[test]
fn marker_needs_colon() {
    let mut d = Dashboard::new();
    d.apply(log("Copiando /a"));
    assert_eq!(d.status(), Status::Preparing);
}

#[test]
fn all_done_log_finishes_and_clears_file() {
    let mut d = Dashboard::new();
    d.apply(AppEvent::CurrentFile(Some("/a".to_string())));
    d.apply(log("Todas as transferencias foram processadas!"));
    assert_eq!(d.status(), Status::Finished);
    assert_eq!(d.status_line(), "Transferencia concluida.");
    assert_eq!(d.current_file(), None);
}

#[test]
fn copying_marker_wins_over_done_marker() {
    let mut d = Dashboard::new();
    d.apply(AppEvent::CurrentFile(Some("/a".to_string())));
    d.apply(log("Copiando: Todas as transferencias"));
    assert_eq!(d.status(), Status::Transferring);
    assert_eq!(d.current_file(), Some("/a"));
}

#[test]
fn clearing_file_while_transferring_awaits_next() {
    let mut d = Dashboard::new();
    d.apply(log("Copiando: f"));
    d.apply(AppEvent::CurrentFile(Some("f".to_string())));
    assert_eq!(d.current_file(), Some("f"));
    assert_eq!(d.active_transfer_label(), "f");
    d.apply(AppEvent::CurrentFile(None));
    assert_eq!(d.status(), Status::AwaitingNext);
    assert_eq!(d.status_line(), "Aguardando proximo arquivo...");
}

#[test]
fn clearing_file_while_preparing_keeps_status() {
    let mut d = Dashboard::new();
    d.apply(AppEvent::CurrentFile(None));
    assert_eq!(d.status(), Status::Preparing);
}

#[test]
fn stats_count_each_outcome() {
    let mut d = Dashboard::new();
    d.apply(AppEvent::StatsUpdate(TransferStat::Completed));
    d.apply(AppEvent::StatsUpdate(TransferStat::Completed));
    d.apply(AppEvent::StatsUpdate(TransferStat::Skipped));
    d.apply(AppEvent::StatsUpdate(TransferStat::Failed));
    assert_eq!((d.completed(), d.skipped(), d.failed()), (2, 1, 1));
    assert_eq!(d.logs().len(), 1);
}

#[test]
fn log_keeps_at_most_limit_plus_one() {
    let mut d = Dashboard::new();
    for i in 0..200 {
        d.apply(log(&format!("linha {}", i)));
        assert!(d.logs().len() <= LOG_LIMIT + 1);
    }
    assert_eq!(d.logs().len(), 51);
    assert_eq!(d.logs()[0], "linha 149");
    assert_eq!(d.logs()[50], "linha 199");
}

#[test]
fn drop_happens_only_beyond_limit() {
    let mut d = Dashboard::new();
    for i in 0..50 {
        d.apply(log(&format!("m{}", i)));
    }
    assert_eq!(d.logs().len(), 51);
    assert_eq!(d.logs()[0], "Aplicacao x9 iniciada. Aperte Q, ESC ou Ctrl+C para sair.");
    d.apply(log("next"));
    assert_eq!(d.logs().len(), 51);
    assert_eq!(d.logs()[0], "m0");
}

#[test]
fn quit_stops_after_linger() {
    let mut d = Dashboard::new();
    let flow = d.apply(AppEvent::Quit);
    assert_eq!(flow, Flow::Shutdown { linger_ms: QUIT_LINGER_MS });
    assert_eq!(QUIT_LINGER_MS, 400);
    assert_eq!(d.status_line(), "Parada solicitada pelo usuario.");
    assert_eq!(d.logs().last().unwrap(), "Parada solicitada. Restaurando terminal...");
    assert_eq!(d.logs().len(), 2);
}

#[test]
fn quit_adds_line_beyond_limit() {
    let mut d = Dashboard::new();
    for i in 0..60 {
        d.apply(log(&format!("m{}", i)));
    }
    d.apply(AppEvent::Quit);
    assert_eq!(d.logs().len(), 52);
}

#[test]
fn ctrl_c_interrupts() {
    let mut d = Dashboard::new();
    d.interrupt();
    assert_eq!(d.status(), Status::Interrupted);
    assert_eq!(d.status_line(), "Encerrando por Ctrl+C...");
    assert_eq!(d.logs().last().unwrap(), "Ctrl+C detectado! Encerrando imediatamente...");
}
