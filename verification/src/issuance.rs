use vstd::prelude::*;

use crate::errors::ProxyError;

verus! {

/// An external command the issuance helper is to run: a program name and its
/// arguments.  The helper only decides commands and file writes; running them
/// and touching the file system stay with the caller.
#[derive(Debug, PartialEq, Eq)]
pub struct CommandSpec {
    pub program: String,
    pub args: Vec<String>,
}

/// The view of an argument list.
pub open spec fn args_model(a: Seq<String>) -> Seq<Seq<char>> {
    Seq::new(a.len(), |i: int| a[i]@)
}

/// Arguments generating an elliptic-curve private key in PEM form.
pub open spec fn private_key_args() -> Seq<Seq<char>> {
    seq!["ecparam"@, "-outform"@, "pem"@, "-name"@, "prime256v1"@, "-genkey"@]
}

/// Arguments building a certificate signing request in PEM form from the
/// private key, with a subject naming the domain.
pub open spec fn certificate_request_args(domain: Seq<char>, private_key_file: Seq<char>) -> Seq<
    Seq<char>,
> {
    seq![
        "req"@,
        "-new"@,
        "-sha256"@,
        "-key"@,
        private_key_file,
        "-subj"@,
        "/CN="@ + domain + "/O=Test/C=US"@,
    ]
}

/// Arguments signing the certificate request into a certificate valid for 90
/// days, using the key and an extensions file.
pub open spec fn certificate_args(
    private_key_file: Seq<char>,
    certificate_request_file: Seq<char>,
    ext_file: Seq<char>,
) -> Seq<Seq<char>> {
    seq![
        "x509"@,
        "-req"@,
        "-days"@,
        "90"@,
        "-in"@,
        certificate_request_file,
        "-signkey"@,
        private_key_file,
        "-extfile"@,
        ext_file,
    ]
}

/// Arguments printing the certificate's public key in PEM form, whose SHA-256
/// digest is the pin published out of band.
pub open spec fn certificate_sha256_args(certificate_file: Seq<char>) -> Seq<Seq<char>> {
    seq!["x509"@, "-pubkey"@, "-noout"@, "-in"@, certificate_file]
}

/// Arguments converting a public key from PEM to DER form, read from stdin.
pub open spec fn public_key_der_args() -> Seq<Seq<char>> {
    seq!["pkey"@, "-pubin"@, "-outform"@, "der"@]
}

/// Arguments computing the SHA-256 digest of stdin, in binary form.
pub open spec fn sha256_digest_args() -> Seq<Seq<char>> {
    seq!["dgst"@, "-sha256"@, "-binary"@]
}

/// Decides whether an output file may be written: an existing file is never
/// overwritten, whatever the step.
pub fn write_new_file_guard(output_exists: bool) -> (r: Result<(), ProxyError>)
    ensures
        r == if output_exists {
            Err::<(), ProxyError>(ProxyError::WouldOverwrite)
        } else {
            Ok::<(), ProxyError>(())
        },
{
    if output_exists {
        Err(ProxyError::WouldOverwrite)
    } else {
        Ok(())
    }
}

/// Plans the private-key generation step; refused when the output file
/// already exists.
pub fn create_private_key_plan(output_exists: bool) -> (r: Result<CommandSpec, ProxyError>)
    ensures
        output_exists ==> r == Err::<CommandSpec, ProxyError>(ProxyError::WouldOverwrite),
        !output_exists ==> {
            &&& r matches Ok(c)
            &&& c.program@ == "openssl"@
            &&& args_model(c.args@) == private_key_args()
        },
{
    if output_exists {
        return Err(ProxyError::WouldOverwrite);
    }
    let mut args: Vec<String> = Vec::new();
    args.push(String::from_str("ecparam"));
    args.push(String::from_str("-outform"));
    args.push(String::from_str("pem"));
    args.push(String::from_str("-name"));
    args.push(String::from_str("prime256v1"));
    args.push(String::from_str("-genkey"));
    proof {
        assert(args_model(args@) =~= private_key_args());
    }
    Ok(CommandSpec { program: String::from_str("openssl"), args })
}

/// Plans the certificate-request step; refused when the output file already
/// exists.
pub fn create_certificate_request_plan(
    domain: &str,
    private_key_file: &str,
    output_exists: bool,
) -> (r: Result<CommandSpec, ProxyError>)
    ensures
        output_exists ==> r == Err::<CommandSpec, ProxyError>(ProxyError::WouldOverwrite),
        !output_exists ==> {
            &&& r matches Ok(c)
            &&& c.program@ == "openssl"@
            &&& args_model(c.args@) == certificate_request_args(domain@, private_key_file@)
        },
{
    if output_exists {
        return Err(ProxyError::WouldOverwrite);
    }
    let mut subject = String::from_str("/CN=");
    subject.append(domain);
    subject.append("/O=Test/C=US");
    let mut args: Vec<String> = Vec::new();
    args.push(String::from_str("req"));
    args.push(String::from_str("-new"));
    args.push(String::from_str("-sha256"));
    args.push(String::from_str("-key"));
    args.push(private_key_file.to_owned());
    args.push(String::from_str("-subj"));
    args.push(subject);
    proof {
        assert(args_model(args@) =~= certificate_request_args(domain@, private_key_file@));
    }
    Ok(CommandSpec { program: String::from_str("openssl"), args })
}

/// Plans the certificate-signing step; refused when the output file already
/// exists.
pub fn create_certificate_plan(
    private_key_file: &str,
    certificate_request_file: &str,
    ext_file: &str,
    output_exists: bool,
) -> (r: Result<CommandSpec, ProxyError>)
    ensures
        output_exists ==> r == Err::<CommandSpec, ProxyError>(ProxyError::WouldOverwrite),
        !output_exists ==> {
            &&& r matches Ok(c)
            &&& c.program@ == "openssl"@
            &&& args_model(c.args@) == certificate_args(
                private_key_file@,
                certificate_request_file@,
                ext_file@,
            )
        },
{
    if output_exists {
        return Err(ProxyError::WouldOverwrite);
    }
    let mut args: Vec<String> = Vec::new();
    args.push(String::from_str("x509"));
    args.push(String::from_str("-req"));
    args.push(String::from_str("-days"));
    args.push(String::from_str("90"));
    args.push(String::from_str("-in"));
    args.push(certificate_request_file.to_owned());
    args.push(String::from_str("-signkey"));
    args.push(private_key_file.to_owned());
    args.push(String::from_str("-extfile"));
    args.push(ext_file.to_owned());
    proof {
        assert(args_model(args@) =~= certificate_args(
            private_key_file@,
            certificate_request_file@,
            ext_file@,
        ));
    }
    Ok(CommandSpec { program: String::from_str("openssl"), args })
}

/// The command printing the certificate's public key; it writes no file, so
/// nothing guards it.
pub fn certificate_sha256_command(certificate_file: &str) -> (r: CommandSpec)
    ensures
        r.program@ == "openssl"@,
        args_model(r.args@) == certificate_sha256_args(certificate_file@),
{
    let mut args: Vec<String> = Vec::new();
    args.push(String::from_str("x509"));
    args.push(String::from_str("-pubkey"));
    args.push(String::from_str("-noout"));
    args.push(String::from_str("-in"));
    args.push(certificate_file.to_owned());
    proof {
        assert(args_model(args@) =~= certificate_sha256_args(certificate_file@));
    }
    CommandSpec { program: String::from_str("openssl"), args }
}

/// The command turning a PEM public key on stdin into its DER form.
pub fn public_key_der_command() -> (r: CommandSpec)
    ensures
        r.program@ == "openssl"@,
        args_model(r.args@) == public_key_der_args(),
{
    let mut args: Vec<String> = Vec::new();
    args.push(String::from_str("pkey"));
    args.push(String::from_str("-pubin"));
    args.push(String::from_str("-outform"));
    args.push(String::from_str("der"));
    proof {
        assert(args_model(args@) =~= public_key_der_args());
    }
    CommandSpec { program: String::from_str("openssl"), args }
}

/// The command digesting stdin with SHA-256 into raw bytes.
pub fn sha256_digest_command() -> (r: CommandSpec)
    ensures
        r.program@ == "openssl"@,
        args_model(r.args@) == sha256_digest_args(),
{
    let mut args: Vec<String> = Vec::new();
    args.push(String::from_str("dgst"));
    args.push(String::from_str("-sha256"));
    args.push(String::from_str("-binary"));
    proof {
        assert(args_model(args@) =~= sha256_digest_args());
    }
    CommandSpec { program: String::from_str("openssl"), args }
}

} // verus!
