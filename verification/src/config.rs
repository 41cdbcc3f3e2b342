//! Connection configuration, built from a command-line style argument
//! list: `[program, token, server?, port?]`.

use vstd::prelude::*;

use crate::text::{parse_dec, spec_digit_part, spec_digits_val, spec_parse_ok};

verus! {

/// The parameters of one session: the authentication token, the server
/// host name and the TCP port.
#[derive(Debug)]
pub struct Config {
    pub token: String,
    pub server: String,
    pub port: u64,
}

impl Default for Config {
    /// Empty token, the well-known cloud endpoint, port 80.
    fn default() -> (r: Self)
        ensures
            r.token@ == Seq::<char>::empty(),
            r.server@ == "blynk-cloud.com"@,
            r.port == 80,
    {
        Config { token: String::new(), server: String::from_str("blynk-cloud.com"), port: 80 }
    }
}

impl Config {
    /// Reads the configuration from an argument list: the first entry is
    /// the program name and is skipped; the second is the required token;
    /// the third and fourth, when present, override the default server
    /// name and port. A missing token is the only error. A port argument
    /// must be a decimal number that fits `u64`.
    pub fn new(args: Vec<String>) -> (r: Result<Config, &'static str>)
        requires
            args@.len() > 3 ==> spec_parse_ok(args@[3]@, u64::MAX as int),
        ensures
            r is Ok <==> args@.len() >= 2,
            r matches Ok(c) ==> {
                &&& c.token@ == args@[1]@
                &&& args@.len() >= 3 ==> c.server@ == args@[2]@
                &&& args@.len() < 3 ==> c.server@ == "blynk-cloud.com"@
                &&& args@.len() > 3 ==> c.port as int == spec_digits_val(
                    spec_digit_part(args@[3]@),
                )
                &&& args@.len() <= 3 ==> c.port == 80
            },
            r matches Err(e) ==> e@ == "Token not provided"@,
    {
        if args.len() < 2 {
            return Err("Token not provided");
        }
        let token = args[1].clone();
        let server = if args.len() >= 3 {
            args[2].clone()
        } else {
            String::from_str("blynk-cloud.com")
        };
        let port: u64 = if args.len() > 3 {
            match parse_dec(args[3].as_str(), u64::MAX) {
                Some(v) => v,
                None => 0,
            }
        } else {
            80
        };
        Ok(Config { token, server, port })
    }
}

} // verus!
