use x9_transfer::dashboard::{Dashboard, Status};
use x9_transfer::events::{AppEvent, TransferStat};
use x9_transfer::paths::db_parent_dir;
use x9_transfer::transfer::{
    copy_target_dir, discover, discovery_started, metadata_error, run_error, scan_error, size_for_db,
    stream_closing, stream_opening, Action, CopyProgress, DbCommand, DiscoveredFile, Job, JobEvent,
    JobPhase, JobStatus, COPY_BUFFER_SIZE,
};

fn file() -> DiscoveredFile {
    DiscoveredFile { source_path: "/src/a.txt".to_string(), dest_path: "/dst/a.txt".to_string(), file_size: 42 }
}

fn log(s: &str) -> Action {
    Action::Notify(AppEvent::Log(s.to_string()))
}

#[test]
fn status_column_values() {
    assert_eq!(JobStatus::Pending.as_str(), "Pending");
    assert_eq!(JobStatus::Processing.as_str(), "Processing");
    assert_eq!(JobStatus::Completed.as_str(), "Completed");
    assert_eq!(JobStatus::Skipped.as_str(), "Skipped");
    assert_eq!(JobStatus::Failed.as_str(), "Failed");
}

#[test]
fn existing_destination_is_skipped() {
    let mut job = Job::new(file());
    let acts = job.step(JobEvent::Checked { dest_exists: true });
    assert!(job.is_done());
    assert_eq!(
        acts,
        vec![
            Action::Db(DbCommand::RecordFileStatus {
                source: "/src/a.txt".to_string(),
                dest: "/dst/a.txt".to_string(),
                size: 42,
                status: JobStatus::Skipped,
                error: None,
            }),
            log("Ja existe no destino: /src/a.txt"),
            Action::Notify(AppEvent::StatsUpdate(TransferStat::Skipped)),
        ]
    );
}

#[test]
fn successful_copy_runs_three_steps() {
    let mut job = Job::new(file());
    assert_eq!(job.phase(), JobPhase::Discovered);
    let acts = job.step(JobEvent::Checked { dest_exists: false });
    assert_eq!(job.phase(), JobPhase::Registering);
    assert_eq!(
        acts,
        vec![Action::Db(DbCommand::UpsertFile {
            source: "/src/a.txt".to_string(),
            dest: "/dst/a.txt".to_string(),
            size: 42,
            status: JobStatus::Processing,
            error: None,
        })]
    );
    let acts = job.step(JobEvent::Registered(Ok(7)));
    assert_eq!(job.phase(), JobPhase::Copying(7));
    assert_eq!(
        acts,
        vec![
            Action::Notify(AppEvent::CurrentFile(Some("/src/a.txt".to_string()))),
            log("Copiando: /src/a.txt"),
            Action::Copy { id: 7 },
        ]
    );
    let acts = job.step(JobEvent::Copied(Ok(())));
    assert!(job.is_done());
    assert_eq!(
        acts,
        vec![
            Action::Db(DbCommand::UpdateStatus { id: 7, status: JobStatus::Completed, error: None }),
            log("Sucesso: /src/a.txt"),
            Action::Notify(AppEvent::StatsUpdate(TransferStat::Completed)),
            Action::Notify(AppEvent::CurrentFile(None)),
        ]
    );
}

#[test]
fn failed_copy_records_error() {
    let mut job = Job::new(file());
    job.step(JobEvent::Checked { dest_exists: false });
    job.step(JobEvent::Registered(Ok(3)));
    let acts = job.step(JobEvent::Copied(Err("disk full".to_string())));
    assert!(job.is_done());
    assert_eq!(
        acts,
        vec![
            Action::Db(DbCommand::UpdateStatus { id: 3, status: JobStatus::Failed, error: Some("disk full".to_string()) }),
            log("Erro em /src/a.txt: disk full"),
            Action::Notify(AppEvent::StatsUpdate(TransferStat::Failed)),
            Action::Notify(AppEvent::CurrentFile(None)),
        ]
    );
}

#[test]
fn registration_error_ends_job() {
    let mut job = Job::new(file());
    job.step(JobEvent::Checked { dest_exists: false });
    let acts = job.step(JobEvent::Registered(Err("locked".to_string())));
    assert!(job.is_done());
    assert_eq!(acts, vec![log("Erro ao registrar /src/a.txt no banco: locked")]);
}

#[test]
fn huge_size_wraps_into_column() {
    assert_eq!(size_for_db(u64::MAX), -1);
    assert_eq!(size_for_db(5), 5);
}

#[test]
fn opening_clears_then_announces() {
    let acts = stream_opening(r"\\host\share", 3);
    assert_eq!(
        acts,
        vec![
            Action::Db(DbCommand::ClearProcessing),
            log(r"Mapeando origem UNC: \\host\share"),
            log("Iniciando transferencia com 3 workers."),
        ]
    );
    assert_eq!(stream_opening("s", 12)[2], log("Iniciando transferencia com 12 workers."));
}

#[test]
fn notes_of_the_run() {
    assert_eq!(discovery_started(), AppEvent::Log("Descobrindo arquivos e liberando copia em streaming...".to_string()));
    assert_eq!(scan_error("denied"), AppEvent::Log("Erro ao varrer diretorio: denied".to_string()));
    assert_eq!(metadata_error("/x", "gone"), AppEvent::Log("Nao foi possivel ler metadados de /x: gone".to_string()));
    assert_eq!(run_error("boom"), AppEvent::Log("Erro na transferencia: boom".to_string()));
    assert_eq!(
        stream_closing(),
        vec![AppEvent::CurrentFile(None), AppEvent::Log("Todas as transferencias foram processadas!".to_string())]
    );
}

#[test]
fn closing_notes_finish_dashboard() {
    let mut d = Dashboard::new();
    d.apply(AppEvent::CurrentFile(Some("/a".to_string())));
    d.apply(AppEvent::Log("Copiando: /a".to_string()));
    for e in stream_closing() {
        d.apply(e);
    }
    assert_eq!(d.status(), Status::Finished);
    assert_eq!(d.current_file(), None);
}

#[test]
fn job_notes_counted_on_dashboard() {
    let mut d = Dashboard::new();
    let mut job = Job::new(file());
    let mut all = job.step(JobEvent::Checked { dest_exists: false });
    all.extend(job.step(JobEvent::Registered(Ok(1))));
    all.extend(job.step(JobEvent::Copied(Ok(()))));
    for a in all {
        if let Action::Notify(e) = a {
            d.apply(e);
        }
    }
    assert_eq!((d.completed(), d.skipped(), d.failed()), (1, 0, 0));
    assert_eq!(d.status(), Status::AwaitingNext);
    assert_eq!(d.current_file(), None);
}

#[test]
fn progress_accumulates() {
    let mut p = CopyProgress::new(9);
    assert_eq!(p.record_chunk(COPY_BUFFER_SIZE), Some(DbCommand::UpdateProgress { id: 9, bytes: 65536 }));
    assert_eq!(p.record_chunk(10), Some(DbCommand::UpdateProgress { id: 9, bytes: 65546 }));
    assert_eq!(p.record_chunk(0), None);
    assert_eq!(p.total(), 65546);
    assert_eq!(COPY_BUFFER_SIZE, 64 * 1024);
}

#[test]
fn discover_mirrors_relative_path() {
    let f = discover("/mnt/share", "/backup", "/mnt/share/dir/a.txt", 5).unwrap();
    assert_eq!(f, DiscoveredFile { source_path: "/mnt/share/dir/a.txt".to_string(), dest_path: "/backup/dir/a.txt".to_string(), file_size: 5 });
    assert_eq!(discover("/mnt/share", "/backup", "/other/a.txt", 5), None);
    assert_eq!(discover("/mnt/share", "/backup", "/mnt/shared/a.txt", 5), None);
}

#[test]
fn db_dir_from_url() {
    assert_eq!(db_parent_dir("sqlite://db/queue.db"), Some("db".to_string()));
    assert_eq!(db_parent_dir("sqlite://queue.db"), None);
    assert_eq!(db_parent_dir("sqlite://"), None);
    assert_eq!(db_parent_dir("postgres://db/x"), None);
    assert_eq!(db_parent_dir("sqlite:///var/lib/x9/q.db"), Some("/var/lib/x9".to_string()));
}

#[test]
fn copy_target_parent() {
    assert_eq!(copy_target_dir("/dst/dir/a.txt"), Some("/dst/dir".to_string()));
    assert_eq!(copy_target_dir("a.txt"), Some("".to_string()));
    assert_eq!(copy_target_dir("/"), None);
}
