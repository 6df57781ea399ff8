use vstd::prelude::*;
use vstd::string::*;

use crate::configuration::command::{CommandOutcome, CommandSpec};
use crate::configuration::credential::Credential;
use crate::text::str_equal;

verus! {

/// Which database server a configured database runs on.
#[derive(Clone, Copy, Debug, PartialEq, Eq, Structural)]
pub enum Kind {
    MongoDB,
    MySql,
    PostgreSql,
}

impl Kind {
    /// The file extension a dump of this kind of database carries.
    pub open spec fn spec_extension(&self) -> Seq<char> {
        match self {
            Kind::MongoDB => ".bson"@,
            Kind::MySql => ".sql"@,
            Kind::PostgreSql => ".sql"@,
        }
    }

    pub fn to_extension_string(&self) -> (r: String)
        ensures
            r@ == self.spec_extension(),
    {
        match self {
            Kind::MongoDB => String::from_str(".bson"),
            Kind::MySql => String::from_str(".sql"),
            Kind::PostgreSql => String::from_str(".sql"),
        }
    }
}

/// One database to dump on backup and to re-import on restore. The dump,
/// create, delete and import invocations are built here as plain command
/// specifications; the caller spawns them.
pub struct Database {
    pub credential: Credential,
    pub id: String,
    pub kind: Kind,
    pub name: String,
    pub name_is_regex: bool,
}

impl Database {
    pub fn new() -> (r: Database)
        ensures
            r.credential.username@.len() == 0,
            r.credential.password@.len() == 0,
            r.id@.len() == 0,
            r.kind == Kind::MySql,
            r.name@.len() == 0,
            !r.name_is_regex,
    {
        Database {
            credential: Credential::new(),
            id: String::new(),
            kind: Kind::MySql,
            name: String::new(),
            name_is_regex: false,
        }
    }

    /// The file a dump of this database is written to: the database name
    /// plus the kind's extension.
    pub fn build_dump_filename(&self) -> (r: String)
        ensures
            r@ == self.name@ + self.kind.spec_extension(),
    {
        let mut out = self.name.clone();
        out.append(self.kind.to_extension_string().as_str());
        out
    }

    /// The program that dumps this kind of database.
    pub open spec fn spec_dump_program(&self) -> Seq<char> {
        match self.kind {
            Kind::MongoDB => "mongodump"@,
            Kind::MySql => "mysqldump"@,
            Kind::PostgreSql => "pg_dump"@,
        }
    }

    /// The arguments of the dump invocation. A mongo dump of `*` dumps all
    /// databases; a name-pattern relational dump names no database.
    pub open spec fn spec_dump_args(&self) -> Seq<Seq<char>> {
        match self.kind {
            Kind::MongoDB => if self.name@ == "*"@ {
                seq!["--archive"@]
            } else {
                seq!["--archive"@, "--db='"@ + self.name@ + "'"@]
            },
            Kind::MySql => (if self.credential.username@.len() > 0 {
                seq!["-u"@, self.credential.username@] + (
                if self.credential.password@.len() > 0 {
                    seq!["-p"@ + self.credential.password@]
                } else {
                    Seq::empty()
                })
            } else {
                Seq::empty()
            }) + seq!["--databases"@] + (if !self.name_is_regex {
                seq![self.name@]
            } else {
                Seq::empty()
            }),
            Kind::PostgreSql => (if self.credential.username@.len() > 0 {
                seq!["--username="@ + self.credential.username@]
            } else {
                Seq::empty()
            }) + seq!["--host=localhost"@, "--dbname="@ + self.name@],
        }
    }

    /// The extra environment of the dump invocation: only a relational
    /// dump of the second kind passes its password that way.
    pub open spec fn spec_dump_envs(&self) -> Seq<(Seq<char>, Seq<char>)> {
        match self.kind {
            Kind::PostgreSql => if self.credential.username@.len() > 0
                && self.credential.password@.len() > 0 {
                seq![("PGPASSWORD"@, self.credential.password@)]
            } else {
                Seq::empty()
            },
            _ => Seq::empty(),
        }
    }

    /// The invocation that dumps this database to its standard output.
    pub fn build_dump_command(&self) -> (r: CommandSpec)
        ensures
            r.program@ == self.spec_dump_program(),
            r.args.deep_view() =~~= self.spec_dump_args(),
            r.envs.deep_view() =~~= self.spec_dump_envs(),
    {
        match self.kind {
            Kind::MongoDB => {
                let mut cmd = CommandSpec::new("mongodump");
                cmd.args.push(String::from_str("--archive"));
                if !str_equal(self.name.as_str(), "*") {
                    let mut quoted = String::from_str("--db='");
                    quoted.append(self.name.as_str());
                    quoted.append("'");
                    cmd.args.push(quoted);
                }
                cmd
            },
            Kind::MySql => {
                let mut cmd = CommandSpec::new("mysqldump");
                if self.credential.username.as_str().unicode_len() > 0 {
                    cmd.args.push(String::from_str("-u"));
                    cmd.args.push(self.credential.username.clone());
                    if self.credential.password.as_str().unicode_len() > 0 {
                        let mut pw = String::from_str("-p");
                        pw.append(self.credential.password.as_str());
                        cmd.args.push(pw);
                    }
                }
                cmd.args.push(String::from_str("--databases"));
                if !self.name_is_regex {
                    cmd.args.push(self.name.clone());
                }
                cmd
            },
            Kind::PostgreSql => {
                let mut cmd = CommandSpec::new("pg_dump");
                if self.credential.username.as_str().unicode_len() > 0 {
                    let mut user = String::from_str("--username=");
                    user.append(self.credential.username.as_str());
                    cmd.args.push(user);
                    if self.credential.password.as_str().unicode_len() > 0 {
                        cmd.envs.push(
                            (String::from_str("PGPASSWORD"), self.credential.password.clone()),
                        );
                    }
                }
                cmd.args.push(String::from_str("--host=localhost"));
                let mut dbname = String::from_str("--dbname=");
                dbname.append(self.name.as_str());
                cmd.args.push(dbname);
                cmd
            },
        }
    }

    /// The arguments of a maintenance statement run against the relational
    /// server: credentials, then the statement.
    pub open spec fn spec_mysql_admin_args(&self, statement: Seq<char>) -> Seq<Seq<char>> {
        seq![
            "-u"@,
            self.credential.username@,
            "-p"@ + self.credential.password@,
            "-e"@,
            statement,
        ]
    }

    /// The invocation that creates this database if it is missing. Only the
    /// relational kind needs one; the others are created by their import.
    pub fn build_create_db_command(&self) -> (r: CommandSpec)
        ensures
            match self.kind {
                Kind::MySql => r.program@ == "mysql"@ && r.args.deep_view()
                    =~~= self.spec_mysql_admin_args(
                    "CREATE DATABASE IF NOT EXISTS `"@ + self.name@ + "`"@,
                ),
                _ => r.program@ == "echo"@ && r.args@.len() == 0,
            },
            r.envs@.len() == 0,
    {
        match self.kind {
            Kind::MySql => {
                let mut statement = String::from_str("CREATE DATABASE IF NOT EXISTS `");
                statement.append(self.name.as_str());
                statement.append("`");
                self.build_mysql_admin_command(statement)
            },
            _ => CommandSpec::new("echo"),
        }
    }

    /// The invocation that drops this database if it exists.
    pub fn build_delete_command(&self) -> (r: CommandSpec)
        ensures
            match self.kind {
                Kind::MySql => r.program@ == "mysql"@ && r.args.deep_view()
                    =~~= self.spec_mysql_admin_args(
                    "DROP DATABASE IF EXISTS `"@ + self.name@ + "`"@,
                ),
                _ => r.program@ == "echo"@ && r.args@.len() == 0,
            },
            r.envs@.len() == 0,
    {
        match self.kind {
            Kind::MySql => {
                let mut statement = String::from_str("DROP DATABASE IF EXISTS `");
                statement.append(self.name.as_str());
                statement.append("`");
                self.build_mysql_admin_command(statement)
            },
            _ => CommandSpec::new("echo"),
        }
    }

    fn build_mysql_admin_command(&self, statement: String) -> (r: CommandSpec)
        ensures
            r.program@ == "mysql"@,
            r.args.deep_view() =~~= self.spec_mysql_admin_args(statement@),
            r.envs@.len() == 0,
    {
        let mut cmd = CommandSpec::new("mysql");
        cmd.args.push(String::from_str("-u"));
        cmd.args.push(self.credential.username.clone());
        let mut pw = String::from_str("-p");
        pw.append(self.credential.password.as_str());
        cmd.args.push(pw);
        cmd.args.push(String::from_str("-e"));
        cmd.args.push(statement);
        cmd
    }

    /// The invocation that reads a dump from its standard input and loads
    /// it into the server.
    pub fn build_import_command(&self) -> (r: CommandSpec)
        ensures
            match self.kind {
                Kind::MongoDB => r.program@ == "mongorestore"@ && r.args.deep_view() =~~= seq![
                    "--archive"@,
                    "--drop"@,
                    "--preserveUUID"@,
                ],
                Kind::MySql => r.program@ == "mysql"@ && r.args.deep_view() =~~= seq![
                    "-u"@,
                    self.credential.username@,
                    "-p"@ + self.credential.password@,
                    self.name@,
                ],
                Kind::PostgreSql => r.program@ == "echo"@ && r.args@.len() == 0,
            },
            r.envs@.len() == 0,
    {
        match self.kind {
            Kind::MongoDB => {
                let mut cmd = CommandSpec::new("mongorestore");
                cmd.args.push(String::from_str("--archive"));
                cmd.args.push(String::from_str("--drop"));
                cmd.args.push(String::from_str("--preserveUUID"));
                cmd
            },
            Kind::MySql => {
                let mut cmd = CommandSpec::new("mysql");
                cmd.args.push(String::from_str("-u"));
                cmd.args.push(self.credential.username.clone());
                let mut pw = String::from_str("-p");
                pw.append(self.credential.password.as_str());
                cmd.args.push(pw);
                cmd.args.push(self.name.clone());
                cmd
            },
            Kind::PostgreSql => CommandSpec::new("echo"),
        }
    }

    /// The error a failed maintenance or import invocation is reported
    /// with: it names the command and the database it was run for.
    pub open spec fn spec_admin_error(&self, command_name: Seq<char>) -> Seq<char> {
        "error while executing "@ + command_name + "-command for database '"@ + self.name@ + "'."@
    }

    /// Judges the create invocation: `Ok` exactly on a clean zero exit;
    /// a spawn or wait failure carries the system's error text through.
    pub fn create_database(&self, outcome: &CommandOutcome) -> (r: Result<(), String>)
        ensures
            r is Ok <==> outcome.spec_succeeded(),
            match outcome {
                CommandOutcome::SpawnFailed(m) => (r matches Err(e) && e@ == m@),
                CommandOutcome::WaitFailed(m) => (r matches Err(e) && e@ == m@),
                CommandOutcome::Exited(code) => *code == Some(0i32) || (r matches Err(e) && e@
                    == self.spec_admin_error("create"@)),
            },
    {
        self.judge_admin_outcome(outcome, "create")
    }

    /// Judges the delete invocation, as `create_database` does.
    pub fn delete_database(&self, outcome: &CommandOutcome) -> (r: Result<(), String>)
        ensures
            r is Ok <==> outcome.spec_succeeded(),
            match outcome {
                CommandOutcome::SpawnFailed(m) => (r matches Err(e) && e@ == m@),
                CommandOutcome::WaitFailed(m) => (r matches Err(e) && e@ == m@),
                CommandOutcome::Exited(code) => *code == Some(0i32) || (r matches Err(e) && e@
                    == self.spec_admin_error("delete"@)),
            },
    {
        self.judge_admin_outcome(outcome, "delete")
    }

    /// Judges the import invocation, as `create_database` does. The dump
    /// bytes themselves are streamed to the program by the caller.
    pub fn import_database(&self, outcome: &CommandOutcome) -> (r: Result<(), String>)
        ensures
            r is Ok <==> outcome.spec_succeeded(),
            match outcome {
                CommandOutcome::SpawnFailed(m) => (r matches Err(e) && e@ == m@),
                CommandOutcome::WaitFailed(m) => (r matches Err(e) && e@ == m@),
                CommandOutcome::Exited(code) => *code == Some(0i32) || (r matches Err(e) && e@
                    == self.spec_admin_error("import"@)),
            },
    {
        self.judge_admin_outcome(outcome, "import")
    }

    fn judge_admin_outcome(&self, outcome: &CommandOutcome, command_name: &str) -> (r: Result<
        (),
        String,
    >)
        ensures
            r is Ok <==> outcome.spec_succeeded(),
            match outcome {
                CommandOutcome::SpawnFailed(m) => (r matches Err(e) && e@ == m@),
                CommandOutcome::WaitFailed(m) => (r matches Err(e) && e@ == m@),
                CommandOutcome::Exited(code) => *code == Some(0i32) || (r matches Err(e) && e@
                    == self.spec_admin_error(command_name@)),
            },
    {
        match outcome {
            CommandOutcome::SpawnFailed(m) => Err(m.clone()),
            CommandOutcome::WaitFailed(m) => Err(m.clone()),
            CommandOutcome::Exited(code) => match code {
                Some(c) => {
                    if *c == 0 {
                        Ok(())
                    } else {
                        Err(self.build_admin_error(command_name))
                    }
                },
                None => Err(self.build_admin_error(command_name)),
            },
        }
    }

    fn build_admin_error(&self, command_name: &str) -> (r: String)
        ensures
            r@ == self.spec_admin_error(command_name@),
    {
        let mut out = String::from_str("error while executing ");
        out.append(command_name);
        out.append("-command for database '");
        out.append(self.name.as_str());
        out.append("'.");
        out
    }

    /// Whether a finished dump should be appended to the archive: only on a
    /// clean zero exit; any other exit leaves the dump file behind without
    /// failing the build. A dump that could not even be run is a hard
    /// error that aborts the whole build.
    pub fn evaluate_dump_outcome(&self, outcome: &CommandOutcome) -> (r: Result<bool, String>)
        ensures
            match outcome {
                CommandOutcome::SpawnFailed(_) => (r matches Err(e) && e@ == self.spec_admin_error(
                    "dump"@,
                )),
                CommandOutcome::WaitFailed(_) => (r matches Err(e) && e@ == self.spec_admin_error(
                    "dump"@,
                )),
                CommandOutcome::Exited(code) => (r matches Ok(append) && append == (*code == Some(
                    0i32,
                ))),
            },
    {
        match outcome {
            CommandOutcome::SpawnFailed(_) => Err(self.build_admin_error("dump")),
            CommandOutcome::WaitFailed(_) => Err(self.build_admin_error("dump")),
            CommandOutcome::Exited(code) => match code {
                Some(c) => Ok(*c == 0),
                None => Ok(false),
            },
        }
    }
}

} // verus!
