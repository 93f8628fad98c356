use eved::db::{create_or_replace_table, next_batch_step, BatchStep, EveDb, SqliteDb, Statement, Table};

#[test]
fn database_url_and_file() {
    let db = SqliteDb::new("/data/eved.db");
    assert_eq!(db.connection_url(), "sqlite:///data/eved.db");
    assert_eq!(db.file_path().as_deref(), Some("/data/eved.db"));
    let eve = EveDb::new("x.db");
    assert_eq!(eve.db.connection_url(), "sqlite://x.db");
    assert_eq!(eve.db.file_path().as_deref(), Some("x.db"));
}

#[test]
fn rebuild_drops_then_creates() {
    assert_eq!(
        create_or_replace_table(Table::Trajectory),
        vec![Statement::DropTable(Table::Trajectory), Statement::CreateTable(Table::Trajectory)]
    );
    assert_eq!(create_or_replace_table(Table::Node), create_or_replace_table(Table::Node));
}

#[test]
fn batch_runs_rows_then_commits() {
    assert_eq!(next_batch_step(2, 0, false), BatchStep::Insert(0));
    assert_eq!(next_batch_step(2, 1, false), BatchStep::Insert(1));
    assert_eq!(next_batch_step(2, 2, false), BatchStep::Commit);
    assert_eq!(next_batch_step(0, 0, false), BatchStep::Commit);
}

#[test]
fn failed_row_rolls_back() {
    assert_eq!(next_batch_step(3, 2, true), BatchStep::Rollback);
    assert_eq!(next_batch_step(3, 3, true), BatchStep::Rollback);
}
