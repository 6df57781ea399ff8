use vstd::prelude::*;
use vstd::string::*;

use crate::configuration::compression::Compression;
use crate::configuration::database::Database;
use crate::configuration::destination::Destination;
use crate::configuration::directory::Directory;
use crate::configuration::encryption::Encryption;
use crate::text::{spec_stripped_suffix, strip_suffix};

verus! {

/// One configured unit of backup work: a name template, data sources, a
/// packaging and encryption policy, and one destination.
pub struct Archive {
    pub compression: Compression,
    pub databases: Vec<Database>,
    pub destination: Destination,
    pub directories: Vec<Directory>,
    pub encryption: Option<Encryption>,
    pub name: String,
}

/// The files one archive run produces: those to hand to the destination,
/// and the intermediate ones to delete once stored.
pub struct BackupPlan {
    pub files_to_store: Vec<String>,
    pub temporary_files: Vec<String>,
}

impl Archive {
    pub fn new() -> (r: Archive)
        ensures
            r.compression == Compression::Uncompressed,
            r.databases@.len() == 0,
            r.destination.kind == crate::configuration::destination::Kind::Unset,
            r.directories@.len() == 0,
            r.encryption is None,
            r.name@.len() == 0,
    {
        Archive {
            compression: Compression::Uncompressed,
            databases: Vec::new(),
            destination: Destination::new(),
            directories: Vec::new(),
            encryption: None,
            name: String::new(),
        }
    }

    /// The files this archive's pipeline hands to the destination, given
    /// the resolved archive name: nothing without a tar stage; the tar
    /// file alone; or the compressed file; each with the encryption suffix
    /// when an encryption is configured.
    pub open spec fn spec_files_to_store(&self, resolved: Seq<char>) -> Seq<Seq<char>> {
        let tar = resolved + ".tar"@;
        let packed: Seq<Seq<char>> = match self.compression {
            Compression::Uncompressed => Seq::empty(),
            Compression::Tar => seq![tar],
            Compression::TarBZ2 => seq![tar + ".bz2"@],
        };
        if self.encryption is Some {
            packed.map_values(|f: Seq<char>| f + ".enc"@)
        } else {
            packed
        }
    }

    /// The intermediate files the pipeline leaves behind and must delete:
    /// the tar file once compressed, and the unencrypted files once
    /// encrypted.
    pub open spec fn spec_temporary_files(&self, resolved: Seq<char>) -> Seq<Seq<char>> {
        let tar = resolved + ".tar"@;
        let packed: Seq<Seq<char>> = match self.compression {
            Compression::Uncompressed => Seq::empty(),
            Compression::Tar => seq![tar],
            Compression::TarBZ2 => seq![tar + ".bz2"@],
        };
        let pre: Seq<Seq<char>> = match self.compression {
            Compression::TarBZ2 => seq![tar],
            _ => Seq::empty(),
        };
        if self.encryption is Some {
            pre + packed
        } else {
            pre
        }
    }

    /// Lays out one run of this archive's pipeline: which files go to the
    /// destination and which intermediates are deleted afterwards. Every
    /// intermediate file is either stored or listed as temporary, so the
    /// run leaves no orphan behind on success.
    pub fn plan_stages(&self, resolved_name: &str) -> (r: BackupPlan)
        ensures
            r.files_to_store.deep_view() == self.spec_files_to_store(resolved_name@),
            r.temporary_files.deep_view() == self.spec_temporary_files(resolved_name@),
    {
        let mut store: Vec<String> = Vec::new();
        let mut temp: Vec<String> = Vec::new();
        let mut tar_name = String::from_str(resolved_name);
        tar_name.append(".tar");
        match self.compression {
            Compression::Uncompressed => {},
            Compression::Tar => {
                match &self.encryption {
                    Some(_) => {
                        temp.push(tar_name.clone());
                        let mut enc = tar_name;
                        enc.append(".enc");
                        store.push(enc);
                    },
                    None => {
                        store.push(tar_name);
                    },
                }
            },
            Compression::TarBZ2 => {
                let mut bz2_name = tar_name.clone();
                bz2_name.append(".bz2");
                temp.push(tar_name);
                match &self.encryption {
                    Some(_) => {
                        temp.push(bz2_name.clone());
                        let mut enc = bz2_name;
                        enc.append(".enc");
                        store.push(enc);
                    },
                    None => {
                        store.push(bz2_name);
                    },
                }
            },
        }
        proof {
            assert(store.deep_view() =~~= self.spec_files_to_store(resolved_name@));
            assert(temp.deep_view() =~~= self.spec_temporary_files(resolved_name@));
        }
        BackupPlan { files_to_store: store, temporary_files: temp }
    }

    /// The name the stored archive file carries before the encryption
    /// suffix: the base name plus the packaging extension.
    pub fn compressed_filename(&self, base: &str) -> (r: String)
        ensures
            r@ == base@ + self.compression.spec_extension(),
    {
        let mut out = String::from_str(base);
        out.append(self.compression.to_extension_string().as_str());
        out
    }

    /// The full path a restore probes for one candidate name under a local
    /// directory destination: the destination path, the candidate, the
    /// packaging extension, and the encryption suffix when configured.
    pub fn build_candidate_filename(&self, name: &str) -> (r: String)
        ensures
            r@ == self.destination.path@ + "/"@ + name@ + self.compression.spec_extension() + (
            if self.encryption is Some {
                ".enc"@
            } else {
                Seq::<char>::empty()
            }),
    {
        let mut out = self.destination.path.clone();
        out.append("/");
        out.append(name);
        out.append(self.compression.to_extension_string().as_str());
        match &self.encryption {
            Some(enc) => {
                out.append(enc.to_extension_string().as_str());
            },
            None => {},
        }
        proof {
            assert(out@ =~= self.destination.path@ + "/"@ + name@
                + self.compression.spec_extension() + (if self.encryption is Some {
                ".enc"@
            } else {
                Seq::<char>::empty()
            }));
        }
        out
    }

    /// A downloaded file's name stripped back to the archive's base name:
    /// first the encryption suffix (when one is configured), then the
    /// packaging extension, each only when present.
    pub open spec fn spec_base_name(&self, f: Seq<char>) -> Seq<char> {
        let after_enc = if self.encryption is Some {
            spec_stripped_suffix(f, ".enc"@)
        } else {
            f
        };
        spec_stripped_suffix(after_enc, self.compression.spec_extension())
    }

    /// Strips the stage suffixes from a downloaded file's name, in the
    /// reverse of the order the pipeline appended them.
    pub fn strip_stage_extensions(&self, filename: &str) -> (r: String)
        ensures
            r@ == self.spec_base_name(filename@),
    {
        let after_enc = match &self.encryption {
            Some(_) => strip_suffix(filename, ".enc"),
            None => String::from_str(filename),
        };
        strip_suffix(after_enc.as_str(), self.compression.to_extension_string().as_str())
    }
}

/// The suffix chain is a round trip: the name a stored file carries —
/// the base name, the packaging extension, then the encryption suffix
/// when one is configured — strips back to exactly the base name.
pub proof fn lemma_suffix_chain_round_trip(a: &Archive, base: Seq<char>)
    ensures
        a.spec_base_name(
            base + a.compression.spec_extension() + (if a.encryption is Some {
                ".enc"@
            } else {
                Seq::<char>::empty()
            }),
        ) == base,
{
    let packed = base + a.compression.spec_extension();
    if a.encryption is Some {
        crate::text::lemma_strip_appended(packed, ".enc"@);
        crate::text::lemma_strip_appended(base, a.compression.spec_extension());
    } else {
        assert(packed + Seq::<char>::empty() =~= packed);
        crate::text::lemma_strip_appended(base, a.compression.spec_extension());
    }
}

/// No stage output is orphaned: the tar container and the compressed
/// file each end up either handed to the destination or listed for
/// deletion, whatever the packaging and encryption policy.
pub proof fn lemma_pipeline_outputs_accounted(a: &Archive, resolved: Seq<char>)
    ensures
        a.compression is Tar || a.compression is TarBZ2 ==> a.spec_files_to_store(
            resolved,
        ).contains(resolved + ".tar"@) || a.spec_temporary_files(resolved).contains(
            resolved + ".tar"@,
        ),
        a.compression is TarBZ2 ==> a.spec_files_to_store(resolved).contains(
            resolved + ".tar"@ + ".bz2"@,
        ) || a.spec_temporary_files(resolved).contains(resolved + ".tar"@ + ".bz2"@),
{
    let tar = resolved + ".tar"@;
    let bz2 = tar + ".bz2"@;
    match a.compression {
        Compression::Uncompressed => {},
        Compression::Tar => {
            if a.encryption is Some {
                assert(a.spec_temporary_files(resolved)[0] == tar);
            } else {
                assert(a.spec_files_to_store(resolved)[0] == tar);
            }
        },
        Compression::TarBZ2 => {
            assert(a.spec_temporary_files(resolved)[0] == tar);
            if a.encryption is Some {
                assert(a.spec_temporary_files(resolved)[1] == bz2);
            } else {
                assert(a.spec_files_to_store(resolved)[0] == bz2);
            }
        },
    }
}

} // verus!
