use clash_controller::codec::{
    acknowledge, mode_or_rule, read_configs, read_connections, read_delay, read_memory, read_mode,
    read_proxies, settle, take_preview, Reply, Response, PREVIEW_LIMIT,
};
use clash_controller::controller::{ClashController, ProxiesStep};
use clash_controller::endpoint::Target;
use clash_controller::error::{ClashError, ConfigurationFault, Operation, TransportError};
use clash_controller::model::{
    ConfigResponse, Connection, ConnectionsResponse, DelayHistory, DelayResponse, MemoryResponse,
    Metadata, Mode, Proxy,
};
use clash_controller::request::{Method, Request};
use clash_controller::snapshot::ProxySnapshot;

/// A daemon that lives in the test: it answers from a fixed proxy map and
/// keeps the body of the last patch of its configuration.
struct MockDaemon {
    proxies: String,
    mode: String,
    configs_status: u16,
    proxies_status: u16,
    last_patch: Option<Vec<u8>>,
    seen: Vec<String>,
}

impl MockDaemon {
    fn new(proxies: &str, mode: &str) -> MockDaemon {
        MockDaemon {
            proxies: proxies.to_string(),
            mode: mode.to_string(),
            configs_status: 200,
            proxies_status: 200,
            last_patch: None,
            seen: Vec::new(),
        }
    }

    fn handle(&mut self, request: &Request) -> Result<Response, TransportError> {
        match &request.target {
            Target::UnixSocket { socket_path } => assert_eq!(socket_path, "/run/clash.sock"),
            Target::Http { url } => panic!("unexpected target {}", url),
        }
        self.seen.push(format!("{} {}", request.method.as_str(), request.path));
        let (status, body) = match (request.method, request.path.as_str()) {
            (Method::Get, "/configs") => {
                let mode = match &self.last_patch {
                    Some(patch) => {
                        let value: serde_json::Value = serde_json::from_slice(patch).unwrap();
                        value.get("mode").and_then(|m| m.as_str()).unwrap().to_string()
                    }
                    None => self.mode.clone(),
                };
                (self.configs_status, format!("{{\"mode\":\"{}\"}}", mode).into_bytes())
            }
            (Method::Patch, "/configs") => {
                assert_eq!(request.content_type(), Some("application/json"));
                self.last_patch = request.body.clone();
                (204, Vec::new())
            }
            (Method::Get, "/proxies") => (self.proxies_status, self.proxies.clone().into_bytes()),
            _ => (404, Vec::new()),
        };
        Ok(Response { status, body })
    }
}

fn decode_config(body: &[u8]) -> Option<ConfigResponse> {
    let value: serde_json::Value = serde_json::from_slice(body).ok()?;
    let object = value.as_object()?;
    let mode = match object.get("mode") {
        None => None,
        Some(word) => Some(Mode::parse(word.as_str()?)?),
    };
    Some(ConfigResponse {
        external_controller: object
            .get("external-controller")
            .and_then(|v| v.as_str())
            .map(|s| s.to_string()),
        secret: object.get("secret").and_then(|v| v.as_str()).map(|s| s.to_string()),
        mode,
    })
}

fn decode_proxies(body: &[u8]) -> Option<ProxySnapshot> {
    let value: serde_json::Value = serde_json::from_slice(body).ok()?;
    let proxies = value.get("proxies")?.as_object()?;
    let mut snapshot = ProxySnapshot::new();
    for (name, proxy) in proxies.iter() {
        let all = match proxy.get("all") {
            None => Vec::new(),
            Some(list) => {
                let mut names = Vec::new();
                for member in list.as_array()? {
                    names.push(member.as_str()?.to_string());
                }
                names
            }
        };
        snapshot.insert(Proxy {
            name: name.clone(),
            proxy_type: proxy.get("type")?.as_str()?.to_string(),
            all,
            now: proxy.get("now").and_then(|v| v.as_str()).map(|s| s.to_string()),
            history: Vec::new(),
        });
    }
    Some(snapshot)
}

fn exchange<T>(
    daemon: &mut MockDaemon,
    request: &Request,
    decode: fn(&[u8]) -> Option<T>,
) -> Reply<T> {
    let outcome = daemon.handle(request);
    let decoded = match &outcome {
        Ok(response) if response.is_success() => decode(&response.body),
        _ => None,
    };
    Reply { outcome, decoded }
}

fn controller() -> ClashController {
    ClashController::new_unix("/run/clash.sock".to_string())
}

fn list_proxies(daemon: &mut MockDaemon) -> Result<Vec<Proxy>, ClashError> {
    let c = controller();
    let reply = exchange(daemon, &c.get_mode(), decode_config);
    let mode = reply.decoded.as_ref().and_then(|config| config.mode);
    match c.proxies_step(reply)? {
        ProxiesStep::Shown(proxies) => Ok(proxies),
        ProxiesStep::Fetch(request) => {
            read_proxies(mode, exchange(daemon, &request, decode_proxies))
        }
    }
}

const SCENARIO: &str = "{\"proxies\":{\"GLOBAL\":{\"type\":\"Selector\",\"all\":[\"A\",\"B\"],\"now\":\"A\"},\"A\":{\"type\":\"Direct\"},\"B\":{\"type\":\"Reject\"}}}";

fn ok<T>(status: u16, body: &[u8], decoded: Option<T>) -> Reply<T> {
    Reply { outcome: Ok(Response { status, body: body.to_vec() }), decoded }
}

#[test]
fn set_mode_then_get_mode_round_trips() {
    let mut daemon = MockDaemon::new(SCENARIO, "rule");
    let c = controller();
    for mode in [Mode::Global, Mode::Direct, Mode::Rule] {
        let request = c.set_mode(mode).expect("a request");
        assert_eq!(acknowledge(Operation::SetMode, daemon.handle(&request)), Ok(()));
        let read = read_mode(exchange(&mut daemon, &c.get_mode(), decode_config));
        assert_eq!(read, Ok(Some(mode)));
    }
}

#[test]
fn end_to_end_rule_mode_lists_members_without_the_group() {
    let mut daemon = MockDaemon::new(SCENARIO, "rule");
    let shown = list_proxies(&mut daemon).expect("proxies");
    let names: Vec<&str> = shown.iter().map(|p| p.name.as_str()).collect();
    assert_eq!(names, vec!["A", "B"]);
    assert_eq!(shown[0].proxy_type, "Direct");
    assert_eq!(shown[1].proxy_type, "Reject");
    assert_eq!(daemon.seen, vec!["GET /configs", "GET /proxies"]);
}

#[test]
fn end_to_end_global_mode_lists_the_group_first() {
    let mut daemon = MockDaemon::new(SCENARIO, "global");
    let shown = list_proxies(&mut daemon).expect("proxies");
    let names: Vec<&str> = shown.iter().map(|p| p.name.as_str()).collect();
    assert_eq!(names, vec!["GLOBAL", "A", "B"]);
    assert_eq!(shown[0].now, Some("A".to_string()));
    assert_eq!(shown[0].all, vec!["A".to_string(), "B".to_string()]);
}

#[test]
fn end_to_end_direct_mode_does_not_ask_for_proxies() {
    let mut daemon = MockDaemon::new(SCENARIO, "direct");
    let shown = list_proxies(&mut daemon).expect("proxies");
    assert_eq!(shown.len(), 1);
    assert_eq!(shown[0].name, "DIRECT");
    assert_eq!(daemon.seen, vec!["GET /configs"]);
}

#[test]
fn a_failed_status_on_configs_fails_configs_and_mode_alike() {
    let mut daemon = MockDaemon::new(SCENARIO, "rule");
    daemon.configs_status = 500;
    let c = controller();
    let configs = read_configs(exchange(&mut daemon, &c.get_configs(), decode_config));
    assert_eq!(configs, Err(ClashError::HttpStatusError(Operation::GetConfigs, 500)));
    let mode = read_mode(exchange(&mut daemon, &c.get_mode(), decode_config));
    assert_eq!(mode, Err(ClashError::HttpStatusError(Operation::GetConfigs, 500)));
    assert_eq!(
        list_proxies(&mut daemon),
        Err(ClashError::HttpStatusError(Operation::GetConfigs, 500))
    );
    // the proxies were never asked for
    assert_eq!(daemon.seen, vec!["GET /configs", "GET /configs", "GET /configs"]);
}

#[test]
fn a_malformed_body_on_proxies_is_a_decode_error_with_its_start() {
    let mut daemon = MockDaemon::new("{\"proxies\": [oops", "rule");
    let failure = list_proxies(&mut daemon).expect_err("a failure");
    assert_eq!(
        failure,
        ClashError::DecodeError(Operation::GetProxies, b"{\"proxies\": [oops".to_vec())
    );
    assert_eq!(failure.operation(), Some(Operation::GetProxies));
    assert_eq!(Operation::GetProxies.name(), "get proxies");
    assert_eq!(
        failure.message(),
        "failed to get proxies: failed to parse JSON response: {\"proxies\": [oops"
    );
}

#[test]
fn the_first_step_of_listing_ends_with_the_failure_of_the_mode() {
    let c = controller();
    let config = |mode| ConfigResponse { external_controller: None, secret: None, mode };
    let failed: Reply<ConfigResponse> = ok(500, b"oops", Some(config(Some(Mode::Direct))));
    assert!(matches!(
        c.proxies_step(failed),
        Err(ClashError::HttpStatusError(Operation::GetConfigs, 500))
    ));
    let unreachable_daemon: Reply<ConfigResponse> =
        Reply { outcome: Err(TransportError::Connect), decoded: None };
    assert!(matches!(
        c.proxies_step(unreachable_daemon),
        Err(ClashError::TransportError(Operation::GetConfigs, TransportError::Connect))
    ));
    let undecoded: Reply<ConfigResponse> = ok(200, b"{\"mode\":7}", None);
    match c.proxies_step(undecoded) {
        Err(error) => assert_eq!(
            error,
            ClashError::DecodeError(Operation::GetConfigs, b"{\"mode\":7}".to_vec())
        ),
        Ok(_) => panic!("an undecoded configuration gives no step"),
    }
}

#[test]
fn the_first_step_of_listing_follows_the_mode_of_the_reply() {
    let c = controller();
    let config = |mode| ConfigResponse { external_controller: None, secret: None, mode };
    for mode in [Some(Mode::Rule), Some(Mode::Global), None] {
        match c.proxies_step(ok(200, b"{}", Some(config(mode)))) {
            Ok(ProxiesStep::Fetch(request)) => assert_eq!(
                request,
                Request {
                    operation: Operation::GetProxies,
                    method: Method::Get,
                    target: Target::UnixSocket { socket_path: "/run/clash.sock".to_string() },
                    path: "/proxies".to_string(),
                    body: None,
                }
            ),
            _ => panic!("the proxies are to be asked for"),
        }
    }
    match c.proxies_step(ok(204, b"", Some(config(Some(Mode::Direct))))) {
        Ok(ProxiesStep::Shown(proxies)) => {
            assert_eq!(proxies.len(), 1);
            assert_eq!(proxies[0].name, "DIRECT");
            assert_eq!(proxies[0].proxy_type, "Direct");
        }
        _ => panic!("direct mode shows the stand-in"),
    }
}

#[test]
fn a_failed_status_is_told_before_the_body_is_looked_at() {
    let reply = ok(503, b"not json", Some(MemoryResponse { inuse: 1, oslimit: 2 }));
    assert_eq!(read_memory(reply), Err(ClashError::HttpStatusError(Operation::GetMemory, 503)));
    let reply: Reply<DelayResponse> = ok(404, b"{}", None);
    assert_eq!(read_delay(reply), Err(ClashError::HttpStatusError(Operation::GetProxyDelay, 404)));
}

#[test]
fn success_is_a_status_from_200_to_299() {
    for (status, success) in
        [(0, false), (199, false), (200, true), (204, true), (299, true), (300, false), (500, false), (u16::MAX, false)]
    {
        let response = Response { status, body: Vec::new() };
        assert_eq!(response.is_success(), success);
        let judged = acknowledge(Operation::SelectProxy, Ok(response));
        if success {
            assert_eq!(judged, Ok(()));
        } else {
            assert_eq!(judged, Err(ClashError::HttpStatusError(Operation::SelectProxy, status)));
        }
    }
}

#[test]
fn transport_failures_carry_the_operation() {
    for cause in
        [TransportError::Connect, TransportError::Write, TransportError::Read, TransportError::Timeout]
    {
        assert_eq!(
            acknowledge(Operation::UpdateConfig, Err(cause)),
            Err(ClashError::TransportError(Operation::UpdateConfig, cause))
        );
        let reply: Reply<ConnectionsResponse> = Reply { outcome: Err(cause), decoded: None };
        assert_eq!(
            read_connections(reply),
            Err(ClashError::TransportError(Operation::GetConnections, cause))
        );
        let reply: Reply<ProxySnapshot> = Reply { outcome: Err(cause), decoded: None };
        assert_eq!(
            read_proxies(Some(Mode::Rule), reply),
            Err(ClashError::TransportError(Operation::GetProxies, cause))
        );
    }
}

#[test]
fn decoded_records_are_handed_through() {
    let memory = MemoryResponse { inuse: 1024, oslimit: 0 };
    assert_eq!(read_memory(ok(200, b"{}", Some(memory.clone()))), Ok(memory));
    let delay = DelayResponse { delay: 87 };
    assert_eq!(read_delay(ok(200, b"{}", Some(delay.clone()))), Ok(delay));
    let connections = ConnectionsResponse {
        download_total: 10,
        upload_total: 20,
        connections: vec![Connection {
            id: "c1".to_string(),
            metadata: Metadata {
                network: "tcp".to_string(),
                metadata_type: "HTTP".to_string(),
                source_ip: "127.0.0.1".to_string(),
                destination_ip: "1.1.1.1".to_string(),
                destination_port: 443,
                host: "example.com".to_string(),
            },
            upload: 1,
            download: 2,
            start: "2024-01-01T00:00:00Z".to_string(),
            chains: vec!["A".to_string(), "GLOBAL".to_string()],
            rule: "Match".to_string(),
        }],
    };
    assert_eq!(read_connections(ok(200, b"{}", Some(connections.clone()))), Ok(connections));
    let config = ConfigResponse {
        external_controller: Some("127.0.0.1:9090".to_string()),
        secret: None,
        mode: Some(Mode::Global),
    };
    assert_eq!(read_configs(ok(200, b"{}", Some(config.clone()))), Ok(config.clone()));
    assert_eq!(read_mode(ok(200, b"{}", Some(config))), Ok(Some(Mode::Global)));
    let silent = ConfigResponse { external_controller: None, secret: None, mode: None };
    assert_eq!(read_mode(ok(200, b"{}", Some(silent))), Ok(None));
    assert_eq!(settle(Operation::GetMemory, ok(299, b"", Some(7u8))), Ok(7u8));
}

#[test]
fn an_absent_mode_orders_as_rule_mode() {
    assert_eq!(mode_or_rule(None), Mode::Rule);
    assert_eq!(mode_or_rule(Some(Mode::Global)), Mode::Global);
    assert_eq!(mode_or_rule(Some(Mode::Direct)), Mode::Direct);
    let snapshot = decode_proxies(SCENARIO.as_bytes()).unwrap();
    let shown = read_proxies(None, ok(200, SCENARIO.as_bytes(), Some(snapshot))).unwrap();
    let names: Vec<&str> = shown.iter().map(|p| p.name.as_str()).collect();
    assert_eq!(names, vec!["A", "B"]);
}

#[test]
fn an_error_keeps_the_start_of_a_long_body() {
    assert_eq!(PREVIEW_LIMIT, 256);
    let long: Vec<u8> = (0..1000u32).map(|i| (i % 251) as u8).collect();
    assert_eq!(take_preview(&long), long[..256].to_vec());
    let exact: Vec<u8> = vec![b'x'; 256];
    assert_eq!(take_preview(&exact), exact);
    let over: Vec<u8> = vec![b'y'; 257];
    assert_eq!(take_preview(&over).len(), 256);
    assert_eq!(take_preview(&Vec::new()), Vec::<u8>::new());
    let reply: Reply<ConfigResponse> = ok(200, &long, None);
    assert_eq!(
        read_configs(reply),
        Err(ClashError::DecodeError(Operation::GetConfigs, long[..256].to_vec()))
    );
}

#[test]
fn messages_name_the_operation_and_the_cause() {
    assert_eq!(
        ClashError::HttpStatusError(Operation::GetConfigs, 500).message(),
        "failed to get config: HTTP status error: 500"
    );
    assert_eq!(
        ClashError::HttpStatusError(Operation::SelectProxy, 0).message(),
        "failed to select proxy: HTTP status error: 0"
    );
    assert_eq!(
        ClashError::TransportError(Operation::GetConnections, TransportError::Connect).message(),
        "failed to get connections: could not connect to the daemon"
    );
    assert_eq!(
        ClashError::TransportError(Operation::SetMode, TransportError::Write).message(),
        "failed to set mode: could not send the request"
    );
    assert_eq!(
        ClashError::TransportError(Operation::GetMemory, TransportError::Read).message(),
        "failed to get memory: could not read the response"
    );
    assert_eq!(
        ClashError::TransportError(Operation::GetProxyDelay, TransportError::Timeout).message(),
        "failed to get proxy delay: the exchange timed out"
    );
    assert_eq!(
        ClashError::DecodeError(Operation::GetProxies, vec![b'<', 0xFF, b'>']).message(),
        "failed to get proxies: failed to parse JSON response: <\u{FFFD}>"
    );
    assert_eq!(
        ClashError::EncodeError(Operation::UpdateConfig, "key must be a string".to_string())
            .message(),
        "failed to update config: failed to encode the request body: key must be a string"
    );
    assert_eq!(
        ClashError::ConfigurationError(ConfigurationFault::NoTransport).message(),
        "configuration error: no connection method configured"
    );
    assert_eq!(
        ClashError::ConfigurationError(ConfigurationFault::BothTransports).message(),
        "configuration error: more than one connection method configured"
    );
    assert_eq!(
        ClashError::ConfigurationError(ConfigurationFault::UnixSocketsUnsupported).message(),
        "configuration error: Unix domain sockets not supported on this platform"
    );
    assert_eq!(ClashError::ConfigurationError(ConfigurationFault::NoTransport).operation(), None);
}

#[test]
fn operations_have_names() {
    assert_eq!(Operation::GetProxies.name(), "get proxies");
    assert_eq!(Operation::SelectProxy.name(), "select proxy");
    assert_eq!(Operation::GetProxyDelay.name(), "get proxy delay");
    assert_eq!(Operation::GetMemory.name(), "get memory");
    assert_eq!(Operation::GetConnections.name(), "get connections");
    assert_eq!(Operation::GetConfigs.name(), "get config");
    assert_eq!(Operation::UpdateConfig.name(), "update config");
    assert_eq!(Operation::SetMode.name(), "set mode");
    assert_eq!(TransportError::Connect.describe(), "could not connect to the daemon");
    assert_eq!(
        ConfigurationFault::UnixSocketsUnsupported.describe(),
        "Unix domain sockets not supported on this platform"
    );
}

#[test]
fn a_proxy_with_history_survives_the_round_through_a_reply() {
    let proxy = Proxy {
        name: "Auto".to_string(),
        proxy_type: "URLTest".to_string(),
        all: vec!["a".to_string()],
        now: Some("a".to_string()),
        history: vec![DelayHistory { time: "t0".to_string(), delay: 42 }],
    };
    let snapshot = ProxySnapshot::from_entries(vec![proxy.clone()]);
    let shown = read_proxies(Some(Mode::Global), ok(200, b"{}", Some(snapshot)));
    assert_eq!(shown, Ok(vec![proxy]));
}
