use sxg_proxy::{
    certificate_sha256_command, create_certificate_plan, create_certificate_request_plan,
    create_private_key_plan, public_key_der_command, sha256_digest_command, write_new_file_guard,
    ProxyError,
};

fn args(strs: &[&str]) -> Vec<String> {
    strs.iter().map(|s| s.to_string()).collect()
}

#[test]
fn existing_files_are_never_overwritten() {
    // Every generation step refuses to write over an existing output file; a
    // second run against the same path fails instead of mutating it.
    assert_eq!(write_new_file_guard(true), Err(ProxyError::WouldOverwrite));
    assert_eq!(write_new_file_guard(false), Ok(()));
    assert_eq!(create_private_key_plan(true), Err(ProxyError::WouldOverwrite));
    assert_eq!(
        create_certificate_request_plan("pub.example", "privkey.pem", true),
        Err(ProxyError::WouldOverwrite)
    );
    assert_eq!(
        create_certificate_plan("privkey.pem", "cert.csr", "ext.txt", true),
        Err(ProxyError::WouldOverwrite)
    );
}

#[test]
fn private_key_command_is_exact() {
    let c = create_private_key_plan(false).unwrap();
    assert_eq!(c.program, "openssl");
    assert_eq!(c.args, args(&["ecparam", "-outform", "pem", "-name", "prime256v1", "-genkey"]));
}

#[test]
fn certificate_request_command_names_the_domain() {
    let c = create_certificate_request_plan("pub.example", "privkey.pem", false).unwrap();
    assert_eq!(c.program, "openssl");
    assert_eq!(
        c.args,
        args(&["req", "-new", "-sha256", "-key", "privkey.pem", "-subj", "/CN=pub.example/O=Test/C=US"])
    );
}

#[test]
fn certificate_command_signs_for_90_days() {
    let c = create_certificate_plan("privkey.pem", "cert.csr", "ext.txt", false).unwrap();
    assert_eq!(c.program, "openssl");
    assert_eq!(
        c.args,
        args(&["x509", "-req", "-days", "90", "-in", "cert.csr", "-signkey", "privkey.pem", "-extfile", "ext.txt"])
    );
}

#[test]
fn sha256_command_reads_the_public_key() {
    let c = certificate_sha256_command("cert.pem");
    assert_eq!(c.program, "openssl");
    assert_eq!(c.args, args(&["x509", "-pubkey", "-noout", "-in", "cert.pem"]));
}

#[test]
fn digest_pipeline_commands_are_exact() {
    let der = public_key_der_command();
    assert_eq!(der.program, "openssl");
    assert_eq!(der.args, args(&["pkey", "-pubin", "-outform", "der"]));
    let digest = sha256_digest_command();
    assert_eq!(digest.program, "openssl");
    assert_eq!(digest.args, args(&["dgst", "-sha256", "-binary"]));
}
