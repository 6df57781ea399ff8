use rusty_backup::configuration::command::CommandOutcome;
use rusty_backup::configuration::database::{Database, Kind};
use rusty_backup::configuration::encryption::Encryption;

fn mysql_db() -> Database {
    let mut db = Database::new();
    db.name = String::from("mydb");
    db.credential.username = String::from("root");
    db.credential.password = String::from("pw");
    db
}

#[test]
fn dump_filenames_follow_the_kind() {
    let mut db = mysql_db();
    assert_eq!(db.build_dump_filename(), "mydb.sql");
    db.kind = Kind::MongoDB;
    assert_eq!(db.build_dump_filename(), "mydb.bson");
    db.kind = Kind::PostgreSql;
    assert_eq!(db.build_dump_filename(), "mydb.sql");
}

#[test]
fn kind_extensions() {
    assert_eq!(Kind::MongoDB.to_extension_string(), ".bson");
    assert_eq!(Kind::MySql.to_extension_string(), ".sql");
    assert_eq!(Kind::PostgreSql.to_extension_string(), ".sql");
}

#[test]
fn mysql_dump_command() {
    let db = mysql_db();
    let cmd = db.build_dump_command();
    assert_eq!(cmd.program, "mysqldump");
    assert_eq!(cmd.args, vec!["-u", "root", "-ppw", "--databases", "mydb"]);
    assert!(cmd.envs.is_empty());
}

#[test]
fn mysql_dump_command_without_credentials() {
    let mut db = Database::new();
    db.name = String::from("mydb");
    let cmd = db.build_dump_command();
    assert_eq!(cmd.args, vec!["--databases", "mydb"]);
}

#[test]
fn mysql_dump_command_for_name_pattern() {
    let mut db = mysql_db();
    db.name_is_regex = true;
    let cmd = db.build_dump_command();
    assert_eq!(cmd.args, vec!["-u", "root", "-ppw", "--databases"]);
}

#[test]
fn mongo_dump_command() {
    let mut db = Database::new();
    db.kind = Kind::MongoDB;
    db.name = String::from("mydb");
    let cmd = db.build_dump_command();
    assert_eq!(cmd.program, "mongodump");
    assert_eq!(cmd.args, vec!["--archive", "--db='mydb'"]);
}

#[test]
fn mongo_dump_command_for_all_databases() {
    let mut db = Database::new();
    db.kind = Kind::MongoDB;
    db.name = String::from("*");
    let cmd = db.build_dump_command();
    assert_eq!(cmd.args, vec!["--archive"]);
}

#[test]
fn postgres_dump_command_passes_password_in_environment() {
    let mut db = mysql_db();
    db.kind = Kind::PostgreSql;
    let cmd = db.build_dump_command();
    assert_eq!(cmd.program, "pg_dump");
    assert_eq!(cmd.args, vec!["--username=root", "--host=localhost", "--dbname=mydb"]);
    assert_eq!(cmd.envs, vec![(String::from("PGPASSWORD"), String::from("pw"))]);
}

#[test]
fn mysql_create_and_delete_commands() {
    let db = mysql_db();
    let create = db.build_create_db_command();
    assert_eq!(create.program, "mysql");
    assert_eq!(
        create.args,
        vec!["-u", "root", "-ppw", "-e", "CREATE DATABASE IF NOT EXISTS `mydb`"]
    );
    let delete = db.build_delete_command();
    assert_eq!(
        delete.args,
        vec!["-u", "root", "-ppw", "-e", "DROP DATABASE IF EXISTS `mydb`"]
    );
}

#[test]
fn non_relational_maintenance_commands_are_noops() {
    let mut db = Database::new();
    db.kind = Kind::MongoDB;
    assert_eq!(db.build_create_db_command().program, "echo");
    db.kind = Kind::PostgreSql;
    assert_eq!(db.build_delete_command().program, "echo");
}

#[test]
fn import_commands() {
    let mut db = mysql_db();
    let cmd = db.build_import_command();
    assert_eq!(cmd.program, "mysql");
    assert_eq!(cmd.args, vec!["-u", "root", "-ppw", "mydb"]);
    db.kind = Kind::MongoDB;
    let cmd = db.build_import_command();
    assert_eq!(cmd.program, "mongorestore");
    assert_eq!(cmd.args, vec!["--archive", "--drop", "--preserveUUID"]);
}

#[test]
fn database_outcomes_demand_a_clean_exit() {
    let db = mysql_db();
    assert!(db.create_database(&CommandOutcome::Exited(Some(0))).is_ok());
    assert_eq!(
        db.create_database(&CommandOutcome::Exited(Some(1))),
        Err(String::from("error while executing create-command for database 'mydb'."))
    );
    assert_eq!(
        db.delete_database(&CommandOutcome::Exited(None)),
        Err(String::from("error while executing delete-command for database 'mydb'."))
    );
    assert_eq!(
        db.create_database(&CommandOutcome::SpawnFailed(String::from("no such file"))),
        Err(String::from("no such file"))
    );
}

#[test]
fn failed_import_is_an_error_for_that_database() {
    let db = mysql_db();
    assert!(db.import_database(&CommandOutcome::Exited(Some(0))).is_ok());
    assert_eq!(
        db.import_database(&CommandOutcome::Exited(Some(2))),
        Err(String::from("error while executing import-command for database 'mydb'."))
    );
}

#[test]
fn outcome_success_is_exit_zero() {
    assert!(CommandOutcome::Exited(Some(0)).succeeded());
    assert!(!CommandOutcome::Exited(Some(1)).succeeded());
    assert!(!CommandOutcome::Exited(None).succeeded());
    assert!(!CommandOutcome::SpawnFailed(String::from("x")).succeeded());
}

#[test]
fn dump_appends_only_on_exit_zero() {
    let db = mysql_db();
    assert_eq!(db.evaluate_dump_outcome(&CommandOutcome::Exited(Some(0))), Ok(true));
    assert_eq!(db.evaluate_dump_outcome(&CommandOutcome::Exited(Some(3))), Ok(false));
    assert_eq!(db.evaluate_dump_outcome(&CommandOutcome::Exited(None)), Ok(false));
    assert_eq!(
        db.evaluate_dump_outcome(&CommandOutcome::WaitFailed(String::from("gone"))),
        Err(String::from("error while executing dump-command for database 'mydb'."))
    );
}

fn cipher() -> Encryption {
    let mut enc = Encryption::new();
    enc.cipher = String::from("aes-256-cbc");
    enc.password = String::from("pw");
    enc
}

#[test]
fn encrypt_command_names_input_and_output() {
    let enc = cipher();
    let cmd = enc.build_encrypt_command("daily.tar.bz2");
    assert_eq!(cmd.program, "openssl");
    assert_eq!(
        cmd.args,
        vec![
            "aes-256-cbc",
            "-pbkdf2",
            "-in",
            "daily.tar.bz2",
            "-out",
            "daily.tar.bz2.enc",
            "-k",
            "pw"
        ]
    );
}

#[test]
fn decrypt_command_strips_the_suffix() {
    let enc = cipher();
    let cmd = enc.build_decrypt_command("daily.tar.bz2.enc");
    assert_eq!(
        cmd.args,
        vec![
            "aes-256-cbc",
            "-d",
            "-pbkdf2",
            "-in",
            "daily.tar.bz2.enc",
            "-out",
            "daily.tar.bz2",
            "-k",
            "pw"
        ]
    );
}

#[test]
fn encryption_filenames() {
    let enc = cipher();
    assert_eq!(enc.to_extension_string(), ".enc");
    assert_eq!(enc.encrypted_filename("a.tar"), "a.tar.enc");
    assert_eq!(enc.decrypted_filename("a.tar.enc"), "a.tar");
    assert_eq!(enc.decrypted_filename("a.tar"), "a.tar");
}

#[test]
fn cipher_outcomes_demand_a_clean_exit() {
    let enc = cipher();
    assert!(enc.encrypt_file(&CommandOutcome::Exited(Some(0))).is_ok());
    assert_eq!(
        enc.encrypt_file(&CommandOutcome::Exited(Some(3))),
        Err(String::from("error program exit-code: 3."))
    );
    assert_eq!(
        enc.encrypt_file(&CommandOutcome::Exited(None)),
        Err(String::from("no output status."))
    );
    assert_eq!(
        enc.encrypt_file(&CommandOutcome::SpawnFailed(String::from("missing"))),
        Err(String::from("error while spawning openssl-program."))
    );
    assert_eq!(
        enc.decrypt_file(&CommandOutcome::WaitFailed(String::from("gone"))),
        Err(String::from("error while waiting for decryption-program."))
    );
    assert!(enc.decrypt_file(&CommandOutcome::Exited(Some(0))).is_ok());
}
