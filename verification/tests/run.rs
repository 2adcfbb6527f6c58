use cf_ddns::envelope::{AuthResponse, CfMessage, ZoneInfo, ZoneInfoResponse};
use cf_ddns::record::DNSRecord;
use cf_ddns::run::{Call, Notice, Reply, Run, Step, Stream};
use cf_ddns::settings::Settings;

fn record(id: &str, name: &str, content: &str) -> DNSRecord {
    DNSRecord {
        id: String::from(id),
        zone_id: String::from("023e105f4ecef8ad9ca31a8372d0c353"),
        name: String::from(name),
        zone_name: String::from("bbl.systems"),
        kind: String::from("A"),
        content: String::from(content),
        proxied: false,
        ttl: 1,
    }
}

fn auth(codes: &[i32]) -> Reply {
    Reply::Auth(AuthResponse {
        success: true,
        errors: Vec::new(),
        messages: codes
            .iter()
            .map(|code| CfMessage { code: *code, message: String::from("m"), kind: None })
            .collect(),
    })
}

fn zone(records: Vec<DNSRecord>) -> Reply {
    Reply::Zone(ZoneInfo { success: true, errors: Vec::new(), messages: Vec::new(), result: records })
}

fn ip(address: &str) -> Reply {
    Reply::Ip(vec![(String::from("origin"), String::from(address))])
}

fn put_answer(success: bool, written: DNSRecord) -> Reply {
    Reply::Update(ZoneInfoResponse {
        success,
        errors: if success { Vec::new() } else { vec![String::from("refused")] },
        messages: Vec::new(),
        result: written,
    })
}

fn failed(text: &str) -> Reply {
    Reply::Failed(String::from(text))
}

fn stdout(line: &str) -> Option<Notice> {
    Some(Notice { stream: Stream::Stdout, line: String::from(line) })
}

fn stderr(line: &str) -> Option<Notice> {
    Some(Notice { stream: Stream::Stderr, line: String::from(line) })
}

fn listed(records: Vec<DNSRecord>) -> (Run, Step) {
    let (run, _) = Run::start(Settings::default());
    let (run, _) = run.advance(auth(&[10000]));
    run.advance(zone(records))
}

#[test]
fn a_run_starts_with_the_token_check() {
    let (run, step) = Run::start(Settings::default());
    assert_eq!(step, Step { notice: None, call: Some(Call::VerifyToken) });
    assert!(!run.is_finished());
    assert_eq!(run.reconciling(), None);
    assert_eq!(run.settings(), &Settings::default());
}

#[test]
fn an_accepted_credential_leads_to_the_listing_in_silence() {
    let (run, _) = Run::start(Settings::default());
    let (run, step) = run.advance(auth(&[10000]));
    assert_eq!(step, Step { notice: None, call: Some(Call::ListRecords) });
    assert!(!run.is_finished());
}

#[test]
fn a_refused_credential_is_reported_and_the_listing_follows() {
    let (run, _) = Run::start(Settings::default());
    let (run, step) = run.advance(auth(&[6003]));
    assert_eq!(step, Step { notice: stdout("not authorized"), call: Some(Call::ListRecords) });
    assert!(!run.is_finished());
}

#[test]
fn a_failed_token_check_ends_the_run() {
    let (run, _) = Run::start(Settings::default());
    let (run, step) = run.advance(failed("error sending request"));
    assert_eq!(
        step,
        Step { notice: stderr("not authorized: error sending request"), call: None }
    );
    assert!(run.is_finished());
}

#[test]
fn an_answer_without_messages_ends_the_run_with_a_named_error() {
    let (run, _) = Run::start(Settings::default());
    let (run, step) = run.advance(auth(&[]));
    assert_eq!(
        step,
        Step {
            notice: stderr("not authorized: the token check answered without a message"),
            call: None
        }
    );
    assert!(run.is_finished());
}

#[test]
fn matching_content_means_no_write() {
    let (run, step) = listed(vec![record("r1", "wg.bbl.systems", "1.2.3.4")]);
    assert_eq!(step, Step { notice: None, call: Some(Call::ResolveIp) });
    assert_eq!(run.reconciling(), Some(&record("r1", "wg.bbl.systems", "1.2.3.4")));
    let (run, step) = run.advance(ip("1.2.3.4"));
    assert_eq!(step, Step { notice: stdout("updated false"), call: None });
    assert!(run.is_finished());
}

#[test]
fn differing_content_means_one_write_with_the_new_address() {
    let (run, _) = listed(vec![record("r1", "wg.bbl.systems", "1.2.3.4")]);
    let (run, step) = run.advance(ip("5.6.7.8"));
    assert_eq!(
        step,
        Step {
            notice: None,
            call: Some(Call::UpdateRecord(record("r1", "wg.bbl.systems", "5.6.7.8")))
        }
    );
    assert!(!run.is_finished());
    let (run, step) = run.advance(put_answer(true, record("r1", "wg.bbl.systems", "5.6.7.8")));
    assert_eq!(step, Step { notice: stdout("updated true"), call: None });
    assert!(run.is_finished());
}

#[test]
fn only_the_target_is_reconciled() {
    let (run, step) = listed(vec![
        record("r1", "other.example.com", "1.2.3.4"),
        record("r2", "wg.bbl.systems", "1.2.3.4"),
    ]);
    assert_eq!(step.call, Some(Call::ResolveIp));
    assert_eq!(run.reconciling(), Some(&record("r2", "wg.bbl.systems", "1.2.3.4")));
    let (run, step) = run.advance(ip("5.6.7.8"));
    assert_eq!(step.call, Some(Call::UpdateRecord(record("r2", "wg.bbl.systems", "5.6.7.8"))));
    let (run, step) = run.advance(put_answer(true, record("r2", "wg.bbl.systems", "5.6.7.8")));
    assert_eq!(step, Step { notice: stdout("updated true"), call: None });
    assert!(run.is_finished());
}

#[test]
fn a_listing_without_the_target_ends_the_run_in_silence() {
    let (run, step) = listed(vec![record("r1", "other.example.com", "1.2.3.4")]);
    assert_eq!(step, Step { notice: None, call: None });
    assert!(run.is_finished());
    let (run, step) = listed(Vec::new());
    assert_eq!(step, Step { notice: None, call: None });
    assert!(run.is_finished());
}

#[test]
fn a_refused_credential_does_not_stop_the_update() {
    let (run, _) = Run::start(Settings::default());
    let (run, _) = run.advance(auth(&[6003]));
    let (run, step) = run.advance(zone(vec![record("r1", "wg.bbl.systems", "1.2.3.4")]));
    assert_eq!(step.call, Some(Call::ResolveIp));
    let (_, step) = run.advance(ip("5.6.7.8"));
    assert_eq!(step.call, Some(Call::UpdateRecord(record("r1", "wg.bbl.systems", "5.6.7.8"))));
}

#[test]
fn a_failed_listing_is_reported_and_ends_the_run() {
    let (run, _) = Run::start(Settings::default());
    let (run, _) = run.advance(auth(&[10000]));
    let (run, step) = run.advance(failed("error decoding response body"));
    assert_eq!(step, Step { notice: stderr("error decoding response body"), call: None });
    assert!(run.is_finished());
}

#[test]
fn the_address_is_asked_for_anew_for_each_record() {
    let (run, step) = listed(vec![
        record("r1", "wg.bbl.systems", "1.2.3.4"),
        record("r2", "wg.bbl.systems", "9.9.9.9"),
    ]);
    assert_eq!(step.call, Some(Call::ResolveIp));
    assert_eq!(run.reconciling(), Some(&record("r1", "wg.bbl.systems", "1.2.3.4")));
    let (run, step) = run.advance(ip("1.2.3.4"));
    assert_eq!(step, Step { notice: stdout("updated false"), call: Some(Call::ResolveIp) });
    assert_eq!(run.reconciling(), Some(&record("r2", "wg.bbl.systems", "9.9.9.9")));
    let (run, step) = run.advance(ip("1.2.3.4"));
    assert_eq!(step.call, Some(Call::UpdateRecord(record("r2", "wg.bbl.systems", "1.2.3.4"))));
    assert_eq!(run.reconciling(), None);
    let (run, step) = run.advance(put_answer(true, record("r2", "wg.bbl.systems", "1.2.3.4")));
    assert_eq!(step, Step { notice: stdout("updated true"), call: None });
    assert!(run.is_finished());
}

#[test]
fn a_failed_address_lookup_is_reported_and_the_next_record_taken_up() {
    let (run, _) = listed(vec![
        record("r1", "wg.bbl.systems", "1.2.3.4"),
        record("r2", "wg.bbl.systems", "1.2.3.4"),
    ]);
    let (run, step) = run.advance(failed("connection refused"));
    assert_eq!(step, Step { notice: stderr("connection refused"), call: Some(Call::ResolveIp) });
    assert_eq!(run.reconciling(), Some(&record("r2", "wg.bbl.systems", "1.2.3.4")));
    let (run, step) = run.advance(Reply::Ip(vec![(String::from("ip"), String::from("5.6.7.8"))]));
    assert_eq!(
        step,
        Step { notice: stderr("the address reply has no entry named origin"), call: None }
    );
    assert!(run.is_finished());
}

#[test]
fn a_failed_update_is_reported_and_the_next_record_taken_up() {
    let (run, _) = listed(vec![
        record("r1", "wg.bbl.systems", "1.2.3.4"),
        record("r2", "wg.bbl.systems", "5.6.7.8"),
    ]);
    let (run, step) = run.advance(ip("5.6.7.8"));
    assert_eq!(step.call, Some(Call::UpdateRecord(record("r1", "wg.bbl.systems", "5.6.7.8"))));
    let (run, step) = run.advance(failed("timed out"));
    assert_eq!(step, Step { notice: stderr("timed out"), call: Some(Call::ResolveIp) });
    let (run, step) = run.advance(ip("5.6.7.8"));
    assert_eq!(step, Step { notice: stdout("updated false"), call: None });
    assert!(run.is_finished());
}

#[test]
fn the_answer_to_an_update_is_not_looked_into() {
    let (run, _) = listed(vec![record("r1", "wg.bbl.systems", "1.2.3.4")]);
    let (run, _) = run.advance(ip("5.6.7.8"));
    let (run, step) = run.advance(put_answer(false, record("zz", "other.example.com", "0.0.0.0")));
    assert_eq!(step, Step { notice: stdout("updated true"), call: None });
    assert!(run.is_finished());
}

#[test]
fn a_reply_of_another_kind_counts_as_a_failure() {
    let (run, _) = Run::start(Settings::default());
    let (run, step) = run.advance(ip("1.2.3.4"));
    assert_eq!(
        step,
        Step {
            notice: stderr("not authorized: the reply does not answer the call that was made"),
            call: None
        }
    );
    assert!(run.is_finished());

    let (run, _) = Run::start(Settings::default());
    let (run, _) = run.advance(auth(&[10000]));
    let (run, step) = run.advance(auth(&[10000]));
    assert_eq!(
        step,
        Step { notice: stderr("the reply does not answer the call that was made"), call: None }
    );
    assert!(run.is_finished());

    let (run, _) = listed(vec![record("r1", "wg.bbl.systems", "1.2.3.4")]);
    let (run, step) = run.advance(zone(Vec::new()));
    assert_eq!(
        step,
        Step { notice: stderr("the reply does not answer the call that was made"), call: None }
    );
    assert!(run.is_finished());

    let (run, _) = listed(vec![record("r1", "wg.bbl.systems", "1.2.3.4")]);
    let (run, _) = run.advance(ip("5.6.7.8"));
    let (run, step) = run.advance(ip("5.6.7.8"));
    assert_eq!(
        step,
        Step { notice: stderr("the reply does not answer the call that was made"), call: None }
    );
    assert!(run.is_finished());
}

#[test]
fn after_the_end_every_reply_is_ignored() {
    let (run, _) = listed(Vec::new());
    assert!(run.is_finished());
    let (run, step) = run.advance(ip("5.6.7.8"));
    assert_eq!(step, Step { notice: None, call: None });
    let (run, step) = run.advance(failed("late"));
    assert_eq!(step, Step { notice: None, call: None });
    let (run, step) = run.advance(zone(vec![record("r1", "wg.bbl.systems", "1.2.3.4")]));
    assert_eq!(step, Step { notice: None, call: None });
    assert!(run.is_finished());
    assert_eq!(run.reconciling(), None);
}

#[test]
fn a_second_run_after_a_write_writes_nothing() {
    let (run, _) = listed(vec![record("r1", "wg.bbl.systems", "1.2.3.4")]);
    let (_, step) = run.advance(ip("5.6.7.8"));
    let written = match step.call {
        Some(Call::UpdateRecord(written)) => written,
        other => panic!("no write was asked for: {:?}", other),
    };
    let (run, _) = listed(vec![written]);
    let (run, step) = run.advance(ip("5.6.7.8"));
    assert_eq!(step, Step { notice: stdout("updated false"), call: None });
    assert!(run.is_finished());
}

#[test]
fn the_target_of_other_settings_is_followed() {
    let settings = Settings {
        api_url: String::from("http://localhost:8080/api"),
        zone_id: String::from("zone-9"),
        target_name: String::from("other.example.com"),
        ip_url: String::from("http://localhost:8081/ip"),
    };
    let (run, _) = Run::start(settings);
    let (run, _) = run.advance(auth(&[10000]));
    let (run, step) = run.advance(zone(vec![
        record("r1", "other.example.com", "1.2.3.4"),
        record("r2", "wg.bbl.systems", "1.2.3.4"),
    ]));
    assert_eq!(step.call, Some(Call::ResolveIp));
    assert_eq!(run.reconciling(), Some(&record("r1", "other.example.com", "1.2.3.4")));
    let (run, step) = run.advance(ip("1.2.3.4"));
    assert_eq!(step, Step { notice: stdout("updated false"), call: None });
    assert!(run.is_finished());
}
