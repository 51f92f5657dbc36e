use boi::upload::{plan_upload, upload_cmdline, RepoUrl, UploadError};

#[test]
fn ssh_urls() {
    assert_eq!(
        plan_upload("ssh://me@nas.local:2222/./backups"),
        Ok(vec!["ssh", "-t", "-p", "2222", "me@nas.local", "boi-upload", "/backups"].into_iter().map(String::from).collect())
    );
    assert_eq!(
        plan_upload("ssh://nas/srv/borg"),
        Ok(vec!["ssh", "-t", "nas", "boi-upload", "/srv/borg"].into_iter().map(String::from).collect())
    );
}

#[test]
fn refused_urls() {
    assert_eq!(plan_upload("https://nas/repo"), Err(UploadError::NotSsh));
    assert!(matches!(plan_upload("not a url"), Err(UploadError::UnparsableUrl(_))));
    assert_eq!(plan_upload("ssh:/no-host"), Err(UploadError::NoHost));
    assert_eq!(UploadError::NotSsh.message(), "Configured repo_url isn't an ssh:// URL; where do I connect?");
    assert_eq!(UploadError::NoHost.message(), "Can't find SSH hostname of borg repo; where do I connect?");
    assert_eq!(
        UploadError::UnparsableUrl("relative URL without a base".to_string()).message(),
        "Can't parse configured repo_url (relative URL without a base); what do I upload?"
    );
}

#[test]
fn command_from_parts() {
    let u = RepoUrl { scheme: "ssh".to_string(), username: String::new(), host: Some("h".to_string()), port: Some(22), path: "/p".to_string() };
    assert_eq!(upload_cmdline(&u), Ok(vec!["ssh", "-t", "-p", "22", "h", "boi-upload", "/p"].into_iter().map(String::from).collect()));
    let u = RepoUrl { scheme: "sftp".to_string(), username: String::new(), host: Some("h".to_string()), port: None, path: "/p".to_string() };
    assert_eq!(upload_cmdline(&u), Err(UploadError::NotSsh));
    let u = RepoUrl { scheme: "ssh".to_string(), username: "u".to_string(), host: None, port: None, path: "/p".to_string() };
    assert_eq!(upload_cmdline(&u), Err(UploadError::NoHost));
}
