use vstd::prelude::*;
use vstd::string::*;

use crate::configuration::command::{CommandOutcome, CommandSpec};
use crate::text::{format_i64, spec_idigits, spec_stripped_suffix, strip_suffix};

verus! {

/// A reversible file transform run by an external cipher program. The
/// commands are built here; the caller spawns them and reports the outcome.
pub struct Encryption {
    pub id: String,
    pub cipher: String,
    pub password: String,
}

/// The error text for a cipher program that exited with a non-zero code.
pub open spec fn spec_cipher_exit_error(code: int) -> Seq<char> {
    "error program exit-code: "@ + spec_idigits(code) + "."@
}

impl Encryption {
    pub fn new() -> (r: Encryption)
        ensures
            r.id@.len() == 0,
            r.cipher@.len() == 0,
            r.password@.len() == 0,
    {
        Encryption { id: String::new(), cipher: String::new(), password: String::new() }
    }

    /// The suffix an encrypted file carries.
    pub fn to_extension_string(&self) -> (r: String)
        ensures
            r@ == ".enc"@,
    {
        String::from_str(".enc")
    }

    /// The name a file gets once encrypted: the input name plus the
    /// encryption suffix.
    pub fn encrypted_filename(&self, input: &str) -> (r: String)
        ensures
            r@ == input@ + ".enc"@,
    {
        let mut out = String::from_str(input);
        out.append(".enc");
        out
    }

    /// The name a file goes back to once decrypted: the input name with a
    /// final encryption suffix removed, or the input name itself when it
    /// carries none.
    pub fn decrypted_filename(&self, input: &str) -> (r: String)
        ensures
            r@ == spec_stripped_suffix(input@, ".enc"@),
    {
        strip_suffix(input, ".enc")
    }

    /// The cipher invocation that encrypts `input` into `input`.enc.
    pub fn build_encrypt_command(&self, input: &str) -> (r: CommandSpec)
        ensures
            r.program@ == "openssl"@,
            r.args.deep_view() =~~= seq![
                self.cipher@,
                "-pbkdf2"@,
                "-in"@,
                input@,
                "-out"@,
                input@ + ".enc"@,
                "-k"@,
                self.password@,
            ],
            r.envs@.len() == 0,
    {
        let mut cmd = CommandSpec::new("openssl");
        cmd.args.push(self.cipher.clone());
        cmd.args.push(String::from_str("-pbkdf2"));
        cmd.args.push(String::from_str("-in"));
        cmd.args.push(String::from_str(input));
        cmd.args.push(String::from_str("-out"));
        cmd.args.push(self.encrypted_filename(input));
        cmd.args.push(String::from_str("-k"));
        cmd.args.push(self.password.clone());
        cmd
    }

    /// The cipher invocation that decrypts `input` back into the name
    /// without the encryption suffix.
    pub fn build_decrypt_command(&self, input: &str) -> (r: CommandSpec)
        ensures
            r.program@ == "openssl"@,
            r.args.deep_view() =~~= seq![
                self.cipher@,
                "-d"@,
                "-pbkdf2"@,
                "-in"@,
                input@,
                "-out"@,
                spec_stripped_suffix(input@, ".enc"@),
                "-k"@,
                self.password@,
            ],
            r.envs@.len() == 0,
    {
        let mut cmd = CommandSpec::new("openssl");
        cmd.args.push(self.cipher.clone());
        cmd.args.push(String::from_str("-d"));
        cmd.args.push(String::from_str("-pbkdf2"));
        cmd.args.push(String::from_str("-in"));
        cmd.args.push(String::from_str(input));
        cmd.args.push(String::from_str("-out"));
        cmd.args.push(self.decrypted_filename(input));
        cmd.args.push(String::from_str("-k"));
        cmd.args.push(self.password.clone());
        cmd
    }

    /// Judges the outcome of the encryption program: success only on a
    /// clean zero exit.
    pub fn encrypt_file(&self, outcome: &CommandOutcome) -> (r: Result<(), String>)
        ensures
            r is Ok <==> outcome.spec_succeeded(),
            match outcome {
                CommandOutcome::SpawnFailed(_) => (r matches Err(m)
                    && m@ == "error while spawning openssl-program."@),
                CommandOutcome::WaitFailed(_) => (r matches Err(m)
                    && m@ == "error while waiting for openssl-program."@),
                CommandOutcome::Exited(code) => match code {
                    Some(c) => if *c == 0 {
                        r is Ok
                    } else {
                        r matches Err(m) && m@ == spec_cipher_exit_error(*c as int)
                    },
                    None => (r matches Err(m) && m@ == "no output status."@),
                },
            },
    {
        Self::judge_cipher_outcome(
            outcome,
            "error while spawning openssl-program.",
            "error while waiting for openssl-program.",
        )
    }

    /// Judges the outcome of the decryption program: success only on a
    /// clean zero exit.
    pub fn decrypt_file(&self, outcome: &CommandOutcome) -> (r: Result<(), String>)
        ensures
            r is Ok <==> outcome.spec_succeeded(),
            match outcome {
                CommandOutcome::SpawnFailed(_) => (r matches Err(m)
                    && m@ == "error while spawning decryption-program."@),
                CommandOutcome::WaitFailed(_) => (r matches Err(m)
                    && m@ == "error while waiting for decryption-program."@),
                CommandOutcome::Exited(code) => match code {
                    Some(c) => if *c == 0 {
                        r is Ok
                    } else {
                        r matches Err(m) && m@ == spec_cipher_exit_error(*c as int)
                    },
                    None => (r matches Err(m) && m@ == "no output status."@),
                },
            },
    {
        Self::judge_cipher_outcome(
            outcome,
            "error while spawning decryption-program.",
            "error while waiting for decryption-program.",
        )
    }

    fn judge_cipher_outcome(outcome: &CommandOutcome, spawn_msg: &str, wait_msg: &str) -> (r:
        Result<(), String>)
        ensures
            r is Ok <==> outcome.spec_succeeded(),
            match outcome {
                CommandOutcome::SpawnFailed(_) => (r matches Err(m) && m@ == spawn_msg@),
                CommandOutcome::WaitFailed(_) => (r matches Err(m) && m@ == wait_msg@),
                CommandOutcome::Exited(code) => match code {
                    Some(c) => if *c == 0 {
                        r is Ok
                    } else {
                        r matches Err(m) && m@ == spec_cipher_exit_error(*c as int)
                    },
                    None => (r matches Err(m) && m@ == "no output status."@),
                },
            },
    {
        match outcome {
            CommandOutcome::SpawnFailed(_) => Err(String::from_str(spawn_msg)),
            CommandOutcome::WaitFailed(_) => Err(String::from_str(wait_msg)),
            CommandOutcome::Exited(code) => match code {
                Some(c) => {
                    if *c == 0 {
                        Ok(())
                    } else {
                        let mut m = String::from_str("error program exit-code: ");
                        m.append(format_i64(*c as i64).as_str());
                        m.append(".");
                        Err(m)
                    }
                },
                None => Err(String::from_str("no output status.")),
            },
        }
    }
}

} // verus!
