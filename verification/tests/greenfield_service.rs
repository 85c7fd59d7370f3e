use da_service::greenfield_service::Progress;
use da_service::greenfield_service::Req;
use da_service::greenfield_service::Resp;
use da_service::greenfield_service::Stage;
use da_service::greenfield_service::Submission;
use da_service::DaError;
use da_service::GreenfieldConfig;
use da_service::GreenfieldService;
use std::collections::HashMap;

const ABC_DIGEST: &str = "4e03657aea45a94fc7d47ba826c8d667c0d1e6e33a64a036ec44f58fa12d6c45";

fn testnet() -> GreenfieldService {
    GreenfieldService::new(GreenfieldConfig {
        rpc_addr: "https://gnfd-testnet-fullnode-tendermint-us.bnbchain.org:443".to_string(),
        chain_id: "greenfield_5600-1".to_string(),
        bucket: "bucket123123123".to_string(),
        private_key_path: "/home/cloud/.ssh/gf-sdk-server.pk".to_string(),
        gf_sdk_host: "0.0.0.0:8099".to_string(),
    })
}

fn answer(code: i32, data: &str) -> Option<Resp> {
    Some(Resp { data: data.to_string(), msg: String::new(), code, id: String::new() })
}

/// A gateway that keeps its objects in memory.
struct Gateway {
    objects: HashMap<String, String>,
    requests: Vec<Stage>,
}

impl Gateway {
    fn empty() -> Self {
        Gateway { objects: HashMap::new(), requests: Vec::new() }
    }

    fn get(&self, url: &str) -> Option<Resp> {
        match self.objects.get(url) {
            Some(data) => answer(0, data),
            None => answer(-1, ""),
        }
    }

    fn serve(&mut self, stage: Stage, url: &str, req: &Req) -> Option<Resp> {
        self.requests.push(stage);
        match stage {
            Stage::Probe => self.get(url),
            Stage::Create => answer(0, ""),
            Stage::Put => {
                self.objects.insert(url.to_string(), req.data.clone());
                answer(0, "")
            }
        }
    }

    fn store(&mut self, service: &GreenfieldService, tx: &[u8]) -> Result<Vec<u8>, DaError> {
        let mut submission = service.begin_submit(tx);
        loop {
            let reply = self.serve(submission.stage, &submission.url, &submission.req);
            match submission.advance(reply) {
                Progress::Ask(next) => submission = next,
                Progress::Done(result) => return result,
            }
        }
    }

    fn fetch(&self, service: &GreenfieldService, handle: &[u8]) -> Result<Vec<u8>, DaError> {
        let url = service.fetch_url(handle)?;
        GreenfieldService::payload(handle, self.get(&url))
    }
}

fn stage_after(submission: Submission, reply: Option<Resp>) -> Result<Stage, Result<Vec<u8>, DaError>> {
    match submission.advance(reply) {
        Progress::Ask(next) => Ok(next.stage),
        Progress::Done(result) => Err(result),
    }
}

fn at(stage: Stage) -> Submission {
    let mut submission = testnet().begin_submit(b"abc");
    submission.stage = stage;
    submission
}

#[test]
fn test_set_tx() {
    let mut tx = serde_json::Map::new();
    tx.insert("hash".to_string(), serde_json::Value::String("0x99898".to_string()));
    tx.insert("block_num".to_string(), serde_json::Value::Number(99.into()));
    let tx = serde_json::to_vec(&serde_json::Value::Object(tx)).unwrap();

    let gfs = testnet();
    let mut gateway = Gateway::empty();
    let tx_hash_bytes = gateway.store(&gfs, &tx).unwrap();
    println!("hash: {}", String::from_utf8(tx_hash_bytes.clone()).unwrap());
    assert_eq!(tx_hash_bytes, hex::encode(GreenfieldService::hash(&tx)).into_bytes());
    assert_eq!(gateway.requests, vec![Stage::Probe, Stage::Create, Stage::Put]);
    assert_eq!(gateway.fetch(&gfs, &tx_hash_bytes), Ok(tx));
}

#[test]
fn the_object_store_has_tag_three_and_hashes_with_keccak() {
    assert_eq!(testnet().type_byte(), 3);
    assert_eq!(GreenfieldService::hash(b"abc"), hex::decode(ABC_DIGEST).unwrap());
}

#[test]
fn a_submission_starts_with_the_probe_of_its_object() {
    let submission = testnet().begin_submit(b"abc");
    assert_eq!(submission.stage, Stage::Probe);
    assert_eq!(submission.handle, ABC_DIGEST.as_bytes().to_vec());
    assert_eq!(
        submission.url,
        format!("http://0.0.0.0:8099/object/bucket123123123/{}", ABC_DIGEST)
    );
    assert_eq!(submission.req.data, "616263");
    assert_eq!(submission.req.content_type, "text/plain");
    assert_eq!(submission.req.visibility, 1);
    assert!(submission.req.sync);
}

#[test]
fn a_probe_that_shows_the_content_ends_the_submission() {
    let result = stage_after(at(Stage::Probe), answer(0, "616263"));
    assert_eq!(result, Err(Ok(ABC_DIGEST.as_bytes().to_vec())));
}

#[test]
fn a_probe_that_shows_anything_else_goes_on_to_create() {
    assert_eq!(stage_after(at(Stage::Probe), None), Ok(Stage::Create));
    assert_eq!(stage_after(at(Stage::Probe), answer(-1, "")), Ok(Stage::Create));
    assert_eq!(stage_after(at(Stage::Probe), answer(0, "")), Ok(Stage::Create));
    assert_eq!(stage_after(at(Stage::Probe), answer(0, "616264")), Ok(Stage::Create));
    assert_eq!(stage_after(at(Stage::Probe), answer(7, "616263")), Ok(Stage::Create));
}

#[test]
fn creating_goes_on_to_put_or_fails() {
    assert_eq!(stage_after(at(Stage::Create), answer(0, "")), Ok(Stage::Put));
    assert_eq!(
        stage_after(at(Stage::Create), answer(1, "")),
        Err(Err(DaError::BackendRejected))
    );
    assert_eq!(stage_after(at(Stage::Create), None), Err(Err(DaError::BackendUnavailable)));
}

#[test]
fn putting_ends_with_the_handle_or_fails() {
    assert_eq!(
        stage_after(at(Stage::Put), answer(0, "")),
        Err(Ok(ABC_DIGEST.as_bytes().to_vec()))
    );
    assert_eq!(stage_after(at(Stage::Put), answer(-3, "")), Err(Err(DaError::BackendRejected)));
    assert_eq!(stage_after(at(Stage::Put), None), Err(Err(DaError::BackendUnavailable)));
}

#[test]
fn a_step_keeps_handle_address_and_request() {
    let first = testnet().begin_submit(b"abc");
    let (handle, url, data) = (first.handle.clone(), first.url.clone(), first.req.data.clone());
    match first.advance(None) {
        Progress::Ask(next) => {
            assert_eq!(next.handle, handle);
            assert_eq!(next.url, url);
            assert_eq!(next.req.data, data);
        }
        Progress::Done(_) => panic!("the probe failed, so the object is still to be created"),
    }
}

#[test]
fn a_payload_stored_twice_is_sent_once_and_has_one_handle() {
    let service = testnet();
    let mut gateway = Gateway::empty();
    let first = gateway.store(&service, b"abc").unwrap();
    let second = gateway.store(&service, b"abc").unwrap();
    assert_eq!(first, second);
    assert_eq!(gateway.requests, vec![Stage::Probe, Stage::Create, Stage::Put, Stage::Probe]);
    assert_eq!(gateway.fetch(&service, &first), Ok(b"abc".to_vec()));
}

#[test]
fn two_submissions_that_race_end_with_the_same_handle() {
    let service = testnet();
    let one = service.begin_submit(b"raced");
    let other = service.begin_submit(b"raced");
    let mut results = Vec::new();
    for mut submission in [one, other] {
        let result = loop {
            let reply = match submission.stage {
                Stage::Probe => answer(-1, ""),
                Stage::Create | Stage::Put => answer(0, ""),
            };
            match submission.advance(reply) {
                Progress::Ask(next) => submission = next,
                Progress::Done(result) => break result,
            }
        };
        results.push(result.unwrap());
    }
    assert_eq!(results[0], results[1]);
}

#[test]
fn the_address_to_read_is_that_of_the_object_the_handle_names() {
    let service = testnet();
    assert_eq!(
        service.fetch_url(ABC_DIGEST.as_bytes()),
        Ok(format!("http://0.0.0.0:8099/object/bucket123123123/{}", ABC_DIGEST))
    );
}

#[test]
fn a_handle_that_names_no_object_is_not_found() {
    let service = testnet();
    let raw = hex::decode(ABC_DIGEST).unwrap();
    assert_eq!(service.fetch_url(&raw), Err(DaError::NotFound));
    assert_eq!(service.fetch_url(b""), Err(DaError::NotFound));
    assert_eq!(service.fetch_url(b"4e03"), Err(DaError::NotFound));
    assert_eq!(service.fetch_url(ABC_DIGEST.to_uppercase().as_bytes()), Err(DaError::NotFound));
}

#[test]
fn an_answer_is_judged_against_the_handle() {
    let handle = ABC_DIGEST.as_bytes();
    assert_eq!(GreenfieldService::payload(handle, answer(0, "616263")), Ok(b"abc".to_vec()));
    assert_eq!(GreenfieldService::payload(handle, answer(1, "616263")), Err(DaError::NotFound));
    assert_eq!(GreenfieldService::payload(handle, None), Err(DaError::BackendUnavailable));
    assert_eq!(
        GreenfieldService::payload(handle, answer(0, "616264")),
        Err(DaError::ValidationFailed)
    );
    assert_eq!(
        GreenfieldService::payload(handle, answer(0, "abc")),
        Err(DaError::ValidationFailed)
    );
}

#[test]
fn an_object_that_was_never_stored_is_not_found() {
    let service = testnet();
    let gateway = Gateway::empty();
    let handle = hex::encode(GreenfieldService::hash(b"never stored")).into_bytes();
    assert_eq!(gateway.fetch(&service, &handle), Err(DaError::NotFound));
}

#[test]
fn the_gateway_is_started_with_key_host_and_chain() {
    assert_eq!(
        testnet().gateway_args(),
        vec![
            "-private_key_path=/home/cloud/.ssh/gf-sdk-server.pk".to_string(),
            "-host=0.0.0.0:8099".to_string(),
            "-chain_rpc=https://gnfd-testnet-fullnode-tendermint-us.bnbchain.org:443".to_string(),
            "-chain_id=greenfield_5600-1".to_string(),
        ]
    );
}
