use blynk_io::config::Config;
use blynk_io::text::u64_to_string;

#[test]
fn token_required() {
    let args: Vec<String> = ["progname"].iter().map(|s| s.to_string()).collect();
    let result = Config::new(args).unwrap_err();
    assert_eq!("Token not provided", result);
}

#[test]
fn server_and_port_parsed() {
    let server = "example.com";
    let port = "1234";
    let vec = vec!["pogname", "token", server, port];
    let args: Vec<String> = vec.iter().map(|s| s.to_string()).collect();
    let conf = Config::new(args).unwrap();
    assert_eq!(server, conf.server);
    assert_eq!(port.parse::<u64>().unwrap(), conf.port);
}

#[test]
fn server_and_port_default() {
    let args: Vec<String> = ["progname", "token"].iter().map(|s| s.to_string()).collect();
    let conf = Config::new(args).unwrap();
    assert_eq!("token", conf.token);
    assert_eq!("blynk-cloud.com", conf.server);
    assert_eq!(80, conf.port);
}

#[test]
fn decimal_rendering_exact() {
    assert_eq!("0", u64_to_string(0));
    assert_eq!("7", u64_to_string(7));
    assert_eq!("12345", u64_to_string(12345));
    assert_eq!("18446744073709551615", u64_to_string(u64::MAX));
}

#[test]
fn port_with_plus_sign_parses() {
    let args: Vec<String> = ["p", "tok", "srv", "+99"].iter().map(|s| s.to_string()).collect();
    let conf = Config::new(args).unwrap();
    assert_eq!(99, conf.port);
}
