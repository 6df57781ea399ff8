use vstd::prelude::*;
use vstd::string::*;

verus! {

/// How an archive's payload is packaged: not at all, as a bare tar
/// container, or as a bzip2-compressed tar container.
#[derive(Clone, Copy, Debug, PartialEq, Eq, Structural)]
pub enum Compression {
    Uncompressed,
    Tar,
    TarBZ2,
}

/// The bzip2 stream that the encoder produces for the given bytes, at the
/// highest compression level. The encoding is a function of the bytes
/// alone; its content is not spelled out here.
pub uninterp spec fn bz2_of(s: Seq<u8>) -> Seq<u8>;

/// Relies on bzip2's write::BzEncoder (level "best"): the stream it
/// produces depends on the input bytes alone, and since the sink here is
/// a plain byte vector, whose writes cannot fail, the encoder always
/// hands the stream back.
#[verifier::external_body]
fn bz2_encode(data: &Vec<u8>) -> (r: Option<Vec<u8>>)
    ensures
        r is Some,
        r matches Some(v) ==> v@ == bz2_of(data@),
{
    let mut enc = bzip2::write::BzEncoder::new(Vec::new(), bzip2::Compression::best());
    match std::io::Write::write_all(&mut enc, data.as_slice()) {
        Ok(()) => enc.finish().ok(),
        Err(_) => None,
    }
}

/// Relies on bzip2's read::BzDecoder: it accepts any stream the encoder
/// produced and yields back exactly the bytes that were encoded.
#[verifier::external_body]
fn bz2_decode(data: &Vec<u8>) -> (r: Option<Vec<u8>>)
    ensures
        r matches Some(v) ==> (forall|s: Seq<u8>| data@ == #[trigger] bz2_of(s) ==> v@ == s),
        (exists|s: Seq<u8>| data@ == #[trigger] bz2_of(s)) ==> r is Some,
{
    let mut dec = bzip2::read::BzDecoder::new(data.as_slice());
    let mut out = Vec::new();
    match std::io::Read::read_to_end(&mut dec, &mut out) {
        Ok(_) => Some(out),
        Err(_) => None,
    }
}

/// Runs a payload through the bzip2 encoder.
pub fn compress_payload(data: &Vec<u8>) -> (r: Result<Vec<u8>, String>)
    ensures
        r matches Ok(v) && v@ == bz2_of(data@),
{
    match bz2_encode(data) {
        Some(v) => Ok(v),
        None => Err(String::from_str("unable to finish bz2 stream.")),
    }
}

/// Reverses `compress_payload`: any stream the encoder produced decodes,
/// and decodes to the bytes that were encoded.
pub fn decompress_payload(data: &Vec<u8>) -> (r: Result<Vec<u8>, String>)
    ensures
        r matches Ok(v) ==> (forall|s: Seq<u8>| data@ == #[trigger] bz2_of(s) ==> v@ == s),
        (exists|s: Seq<u8>| data@ == #[trigger] bz2_of(s)) ==> r is Ok,
        r matches Err(m) ==> m@ == "unable to decode bz2 stream."@,
{
    match bz2_decode(data) {
        Some(v) => Ok(v),
        None => Err(String::from_str("unable to decode bz2 stream.")),
    }
}

/// Compressing a payload and then decompressing the result hands the
/// payload back byte for byte: the compression stage of the pipeline is a
/// round trip.
pub fn compress_round_trip(data: &Vec<u8>) -> (r: Result<Vec<u8>, String>)
    ensures
        r matches Ok(v) && v@ == data@,
{
    let packed = compress_payload(data)?;
    let unpacked = decompress_payload(&packed)?;
    Ok(unpacked)
}

impl Compression {
    /// The filename extension this packaging appends.
    pub open spec fn spec_extension(&self) -> Seq<char> {
        match self {
            Compression::Uncompressed => Seq::empty(),
            Compression::Tar => ".tar"@,
            Compression::TarBZ2 => ".tar.bz2"@,
        }
    }

    pub fn to_extension_string(&self) -> (r: String)
        ensures
            r@ == self.spec_extension(),
    {
        match self {
            Compression::Uncompressed => String::new(),
            Compression::Tar => String::from_str(".tar"),
            Compression::TarBZ2 => String::from_str(".tar.bz2"),
        }
    }

    /// Undoes this packaging's byte transform: a bzip2 archive is inflated
    /// back to its tar payload; the other packagings pass the bytes
    /// through. Unpacking the tar container itself is the extraction
    /// step's work.
    pub fn decompress_file(&self, data: &Vec<u8>) -> (r: Result<Vec<u8>, String>)
        ensures
            self is Uncompressed || self is Tar ==> (r matches Ok(v) && v@ == data@),
            self is TarBZ2 ==> ((r matches Ok(v) ==> (forall|s: Seq<u8>|
                data@ == #[trigger] bz2_of(s) ==> v@ == s)) && ((exists|s: Seq<u8>|
                data@ == #[trigger] bz2_of(s)) ==> r is Ok) && (r matches Err(m) ==> m@
                == "unable to decode bz2 stream."@)),
    {
        match self {
            Compression::Uncompressed => Ok(data.clone()),
            Compression::Tar => Ok(data.clone()),
            Compression::TarBZ2 => decompress_payload(data),
        }
    }
}

} // verus!
