use todo_backend::model::boot::BootAction;
use todo_backend::model::boot::Bootstrap;
use todo_backend::model::boot::Phase;
use todo_backend::model::db::DbConfig;

fn strings(v: &[&str]) -> Vec<String> {
    v.iter().map(|s| s.to_string()).collect()
}

#[test]
fn bootstrap_runs_phases_in_order() {
    let config = DbConfig::dev();
    let (mut boot, first) = Bootstrap::start(config.clone());
    assert_eq!(BootAction::OpenRootPool(config.root_pool()), first);
    assert_eq!(BootAction::RunRootScript("sql/00-recreate-db.sql".to_string()), boot.done());
    assert_eq!(BootAction::OpenAppPool(config.app_pool()), boot.done());
    assert_eq!(BootAction::ListScripts("sql/".to_string()), boot.done());
    assert_eq!(Phase::Listing, boot.phase);

    let listing = strings(&["sql/02-dev-seed.sql", "sql/00-recreate-db.sql", "sql/01-create-schema.sql", "sql/notes.txt"]);
    assert_eq!(BootAction::RunAppScript("sql/01-create-schema.sql".to_string()), boot.listed(listing));
    assert_eq!(BootAction::RunAppScript("sql/02-dev-seed.sql".to_string()), boot.done());
    assert_eq!(BootAction::OpenFinalPool(config.app_pool()), boot.done());
    assert_eq!(BootAction::Finish, boot.done());
    assert_eq!(Phase::Ready, boot.phase);
}

#[test]
fn bootstrap_with_only_the_recreate_script_goes_to_the_final_pool() {
    let config = DbConfig::dev();
    let (mut boot, _) = Bootstrap::start(config.clone());
    boot.done();
    boot.done();
    boot.done();
    assert_eq!(BootAction::OpenFinalPool(config.app_pool()), boot.listed(strings(&["sql/00-recreate-db.sql"])));
    assert!(boot.scripts.is_empty());
    assert_eq!(BootAction::Finish, boot.done());
}
