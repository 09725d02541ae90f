use watchctl::check::{
    Check, FileCheck, HttpCheck, HttpReply, HttpStatus, ProbeSpec, TcpCheck, TcpReply,
};
use watchctl::duration::Duration;

#[test]
fn probes_are_named_by_kind_and_target() {
    assert_eq!(FileCheck::new("/run/ready").description(), "file:/run/ready");
    assert_eq!(
        TcpCheck::new("db:5432".to_string(), Duration::from_secs(5)).description(),
        "tcp:db:5432"
    );
    assert_eq!(
        HttpCheck::new("http://api/health".to_string(), Duration::from_secs(5)).description(),
        "http:http://api/health"
    );
    let probe = ProbeSpec::Tcp(TcpCheck::new("db:5432".to_string(), Duration::from_secs(5)));
    assert_eq!(probe.description(), "tcp:db:5432");
    assert_eq!(probe.timeout(), Some(Duration::from_secs(5)));
    let probe = ProbeSpec::File(FileCheck::new("a b"));
    assert_eq!(probe.description(), "file:a b");
    assert_eq!(probe.timeout(), None);
    let probe = ProbeSpec::Http(HttpCheck::new("u".to_string(), Duration::from_millis(20)));
    assert_eq!(probe.description(), "http:u");
    assert_eq!(probe.timeout(), Some(Duration::from_millis(20)));
}

#[test]
fn probes_keep_their_settings() {
    let tcp = TcpCheck::new("db:5432".to_string(), Duration::from_secs(3));
    assert_eq!(tcp.target(), "db:5432");
    assert_eq!(tcp.timeout(), Duration::from_secs(3));
    let http = HttpCheck::new("http://x".to_string(), Duration::from_secs(4));
    assert_eq!(http.target(), "http://x");
    assert_eq!(http.timeout(), Duration::from_secs(4));
    assert_eq!(FileCheck::new("/p").target(), "/p");
}

#[test]
fn file_probe_passes_while_the_path_exists() {
    let check = FileCheck::new("/run/ready");
    assert_eq!(check.evaluate(true), Ok(()));
    assert_eq!(check.evaluate(false), Err("file /run/ready does not exist".to_string()));
}

#[test]
fn tcp_probe_passes_on_a_connection() {
    let check = TcpCheck::new("db:5432".to_string(), Duration::from_secs(5));
    assert_eq!(check.evaluate(&TcpReply::Connected), Ok(()));
    assert_eq!(
        check.evaluate(&TcpReply::Failed("connection refused".to_string())),
        Err("tcp connect to db:5432: connection refused".to_string())
    );
    assert_eq!(
        check.evaluate(&TcpReply::TimedOut),
        Err("tcp connect to db:5432 timed out".to_string())
    );
}

#[test]
fn http_probe_passes_on_a_2xx_status() {
    let check = HttpCheck::new("http://api/health".to_string(), Duration::from_secs(5));
    for code in [200u16, 201, 204, 299] {
        let status = HttpStatus::from_u16(code).unwrap();
        assert_eq!(check.evaluate(&HttpReply::Status(status)), Ok(()));
    }
    for code in [100u16, 199, 300, 301, 404, 500, 999] {
        let status = HttpStatus::from_u16(code).unwrap();
        assert!(check.evaluate(&HttpReply::Status(status)).is_err());
    }
}

#[test]
fn http_probe_gives_the_status_as_the_reason() {
    let check = HttpCheck::new("http://api/health".to_string(), Duration::from_secs(5));
    let status = HttpStatus::from_u16(500).unwrap();
    assert_eq!(
        check.evaluate(&HttpReply::Status(status)),
        Err("http http://api/health returned status 500 Internal Server Error".to_string())
    );
    let status = HttpStatus::from_u16(404).unwrap();
    assert_eq!(
        check.evaluate(&HttpReply::Status(status)),
        Err("http http://api/health returned status 404 Not Found".to_string())
    );
    let status = HttpStatus::from_u16(799).unwrap();
    assert_eq!(
        check.evaluate(&HttpReply::Status(status)),
        Err("http http://api/health returned status 799 <unknown status code>".to_string())
    );
    assert_eq!(
        check.evaluate(&HttpReply::Failed("connection reset".to_string())),
        Err("http http://api/health: connection reset".to_string())
    );
}

#[test]
fn http_status_is_a_number_from_100_to_999() {
    assert!(HttpStatus::from_u16(99).is_none());
    assert!(HttpStatus::from_u16(0).is_none());
    assert!(HttpStatus::from_u16(1000).is_none());
    assert!(HttpStatus::from_u16(u16::MAX).is_none());
    assert_eq!(HttpStatus::from_u16(100).unwrap().as_u16(), 100);
    assert_eq!(HttpStatus::from_u16(999).unwrap().as_u16(), 999);
    assert!(HttpStatus::from_u16(204).unwrap().is_success());
    assert!(!HttpStatus::from_u16(304).unwrap().is_success());
    assert_eq!(HttpStatus::from_u16(200).unwrap().line(), "200 OK");
    assert_eq!(HttpStatus::from_u16(503).unwrap().line(), "503 Service Unavailable");
}

#[test]
fn status_success_agrees_with_the_http_client_for_every_status() {
    for code in 100u16..=999 {
        let ours = HttpStatus::from_u16(code).unwrap();
        let theirs = reqwest::StatusCode::from_u16(code).unwrap();
        assert_eq!(ours.is_success(), theirs.is_success());
        assert_eq!(ours.is_success(), (200..=299).contains(&code));
        assert_eq!(ours.line(), theirs.to_string());
    }
}
