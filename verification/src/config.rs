//! The settings of the server, as the environment gives them.
use vstd::prelude::*;
use vstd::string::StringExecFns;

use crate::text;

verus! {

/// What the environment says. A variable that is not set is missing, and so is
/// a file that cannot be read.
pub struct Environment {
    pub rancher_url: Option<String>,
    pub rancher_token: Option<String>,
    pub rancher_tls_verify: Option<String>,
    pub job_namespace: Option<String>,
    /// The namespace of the pod's service account, from its file.
    pub service_account_namespace: Option<String>,
    pub helm_image: Option<String>,
    pub port: Option<String>,
}

/// What an [`Environment`] holds.
pub struct EnvironmentView {
    pub rancher_url: Option<Seq<char>>,
    pub rancher_token: Option<Seq<char>>,
    pub rancher_tls_verify: Option<Seq<char>>,
    pub job_namespace: Option<Seq<char>>,
    pub service_account_namespace: Option<Seq<char>>,
    pub helm_image: Option<Seq<char>>,
    pub port: Option<Seq<char>>,
}

impl View for Environment {
    type V = EnvironmentView;

    open spec fn view(&self) -> EnvironmentView {
        EnvironmentView {
            rancher_url: self.rancher_url.deep_view(),
            rancher_token: self.rancher_token.deep_view(),
            rancher_tls_verify: self.rancher_tls_verify.deep_view(),
            job_namespace: self.job_namespace.deep_view(),
            service_account_namespace: self.service_account_namespace.deep_view(),
            helm_image: self.helm_image.deep_view(),
            port: self.port.deep_view(),
        }
    }
}

/// How the server is reached.
#[derive(Debug, Clone, Copy, PartialEq, Eq, Structural)]
pub enum Transport {
    /// Streamable HTTP on a port.
    Http { port: u16 },
    /// Standard input and output.
    Stdio,
}

/// The settings.
pub struct Config {
    pub rancher_url: String,
    pub rancher_token: String,
    pub tls_verify: bool,
    pub job_namespace: String,
    pub helm_image: String,
    pub transport: Transport,
}

/// What a [`Config`] holds.
pub struct ConfigView {
    pub rancher_url: Seq<char>,
    pub rancher_token: Seq<char>,
    pub tls_verify: bool,
    pub job_namespace: Seq<char>,
    pub helm_image: Seq<char>,
    pub transport: Transport,
}

impl View for Config {
    type V = ConfigView;

    open spec fn view(&self) -> ConfigView {
        ConfigView {
            rancher_url: self.rancher_url@,
            rancher_token: self.rancher_token@,
            tls_verify: self.tls_verify,
            job_namespace: self.job_namespace@,
            helm_image: self.helm_image@,
            transport: self.transport,
        }
    }
}

// ---- Ports ----------------------------------------------------------------
/// Nothing but digits, and at least one.
pub open spec fn is_number(s: Seq<char>) -> bool {
    s.len() > 0 && forall|i: int| 0 <= i < s.len() ==> text::is_digit(#[trigger] s[i])
}

/// The digits of a number that may carry a plus sign.
pub open spec fn unsigned_part(s: Seq<char>) -> Seq<char> {
    if s.len() > 0 && s.first() == '+' {
        s.drop_first()
    } else {
        s
    }
}

/// The port that a text writes: a decimal number of 16 bits at most, with or
/// without a plus sign; any other text is none.
pub open spec fn port_of(s: Seq<char>) -> Option<u16> {
    let digits = unsigned_part(s);
    if is_number(digits) && text::digits_value(digits) <= u16::MAX {
        Some(text::digits_value(digits) as u16)
    } else {
        None
    }
}

/// More digits write no smaller number.
proof fn lemma_digits_grow(s: Seq<char>, n: int)
    requires
        0 <= n <= s.len(),
    ensures
        text::digits_value(s.take(n)) <= text::digits_value(s),
    decreases s.len() - n,
{
    if n < s.len() {
        lemma_digits_grow(s, n + 1);
        assert(s.take(n + 1).drop_last() =~= s.take(n));
    } else {
        assert(s.take(n) =~= s);
    }
}

/// Reads a port.
pub fn parse_port(s: &str) -> (r: Option<u16>)
    ensures
        r == port_of(s@),
{
    let chars = text::chars_of(s);
    let start: usize = if chars.len() > 0 && chars[0] == '+' {
        1
    } else {
        0
    };
    let ghost digits = unsigned_part(s@);
    assert(digits =~= s@.skip(start as int));
    if start == chars.len() {
        return None;
    }
    let mut value: u32 = 0;
    let mut i: usize = start;
    assert(digits.take(0) =~= Seq::empty());
    while i < chars.len()
        invariant
            chars@ == s@,
            digits == unsigned_part(s@),
            digits == s@.skip(start as int),
            start <= i <= chars@.len(),
            value == text::digits_value(digits.take(i - start)),
            value <= u16::MAX,
            forall|j: int| 0 <= j < i - start ==> text::is_digit(#[trigger] digits[j]),
        decreases chars@.len() - i,
    {
        let c = chars[i];
        assert(digits[i - start] == c);
        if !('0' <= c && c <= '9') {
            return None;
        }
        value = value * 10 + (c as u32 - '0' as u32);
        proof {
            assert(digits.take(i + 1 - start).drop_last() =~= digits.take(i - start));
            assert(digits.take(i + 1 - start).last() == c);
        }
        i += 1;
        if value > 65535 {
            proof {
                lemma_digits_grow(digits, i - start);
            }
            return None;
        }
    }
    assert(digits.take(i - start) =~= digits);
    Some(value as u16)
}

/// The address to listen on for HTTP.
pub open spec fn address_of(port: u16) -> Seq<char> {
    "0.0.0.0:"@ + text::decimal(port as nat)
}

/// The address to listen on for HTTP: the port, on every interface.
pub fn listen_address(port: u16) -> (r: String)
    ensures
        r@ == "0.0.0.0:"@ + text::decimal(port as nat),
        r@ == address_of(port),
{
    "0.0.0.0:".to_string().concat(text::decimal_text(port as u128).as_str())
}

// ---- Settings -------------------------------------------------------------
/// The first text that is there, or the default.
pub open spec fn first_of(
    first: Option<Seq<char>>,
    second: Option<Seq<char>>,
    default: Seq<char>,
) -> Seq<char> {
    match (first, second) {
        (Some(text), _) => text,
        (None, Some(text)) => text,
        (None, None) => default,
    }
}

/// Certificates are verified unless the variable says `false` or `0`.
pub open spec fn verifies_tls(variable: Option<Seq<char>>) -> bool {
    match variable {
        Some(text) => text != "false"@ && text != "0"@,
        None => true,
    }
}

/// HTTP where the variable is a port, and standard input and output otherwise.
pub open spec fn transport_of(variable: Option<Seq<char>>) -> Transport {
    match variable {
        Some(text) => match port_of(text) {
            Some(port) => Transport::Http { port },
            None => Transport::Stdio,
        },
        None => Transport::Stdio,
    }
}

/// The settings that an environment gives, or which variable is missing.
pub open spec fn config_of(env: EnvironmentView) -> Result<ConfigView, Seq<char>> {
    match (env.rancher_url, env.rancher_token) {
        (None, _) => Err("RANCHER_URL environment variable is required"@),
        (Some(_), None) => Err("RANCHER_TOKEN environment variable is required"@),
        (Some(rancher_url), Some(rancher_token)) => Ok(
            ConfigView {
                rancher_url,
                rancher_token,
                tls_verify: verifies_tls(env.rancher_tls_verify),
                job_namespace: first_of(
                    env.job_namespace,
                    env.service_account_namespace,
                    "default"@,
                ),
                helm_image: first_of(env.helm_image, None, "alpine/helm:3"@),
                transport: transport_of(env.port),
            },
        ),
    }
}

impl Config {
    /// Reads the settings off an environment.
    pub fn from_environment(env: Environment) -> (r: Result<Config, String>)
        ensures
            match r {
                Ok(config) => config_of(env@) == Ok::<ConfigView, Seq<char>>(config@),
                Err(message) => config_of(env@) == Err::<ConfigView, Seq<char>>(message@),
            },
    {
        let rancher_url = match env.rancher_url {
            Some(url) => url,
            None => return Err("RANCHER_URL environment variable is required".to_string()),
        };
        let rancher_token = match env.rancher_token {
            Some(token) => token,
            None => return Err("RANCHER_TOKEN environment variable is required".to_string()),
        };
        let tls_verify = match env.rancher_tls_verify {
            Some(text) => !text::same_text(text.as_str(), "false") && !text::same_text(
                text.as_str(),
                "0",
            ),
            None => true,
        };
        let job_namespace = match (env.job_namespace, env.service_account_namespace) {
            (Some(namespace), _) => namespace,
            (None, Some(namespace)) => namespace,
            (None, None) => "default".to_string(),
        };
        let helm_image = match env.helm_image {
            Some(image) => image,
            None => "alpine/helm:3".to_string(),
        };
        let transport = match env.port {
            Some(text) => match parse_port(text.as_str()) {
                Some(port) => Transport::Http { port },
                None => Transport::Stdio,
            },
            None => Transport::Stdio,
        };
        Ok(
            Config {
                rancher_url,
                rancher_token,
                tls_verify,
                job_namespace,
                helm_image,
                transport,
            },
        )
    }
}

// ---- Laws -----------------------------------------------------------------
/// A number written in decimal reads back as itself.
proof fn lemma_decimal_reads_back(n: nat)
    ensures
        is_number(text::decimal(n)),
        text::digits_value(text::decimal(n)) == n,
{
    text::law_decimal_writes_the_number(n);
    assert forall|i: int| 0 <= i < text::decimal(n).len() implies text::is_digit(
        #[trigger] text::decimal(n)[i],
    ) by {}
}

/// Every port, written in decimal, selects HTTP on that port.
pub proof fn law_port_selects_http(port: u16)
    ensures
        transport_of(Some(text::decimal(port as nat))) == (Transport::Http { port }),
        transport_of(Some(seq!['+'] + text::decimal(port as nat))) == (Transport::Http { port }),
{
    lemma_decimal_reads_back(port as nat);
    let written = text::decimal(port as nat);
    assert(text::is_digit(written[0]));
    assert((seq!['+'] + written).drop_first() =~= written);
}

/// Settings are had exactly where both the URL and the token are there.
pub proof fn law_url_and_token_are_required(env: EnvironmentView)
    ensures
        config_of(env) is Ok <==> env.rancher_url is Some && env.rancher_token is Some,
{
}

/// The text is one or more digits that write the port.
pub open spec fn writes_port(s: Seq<char>, port: u16) -> bool {
    &&& s.len() > 0
    &&& forall|i: int| 0 <= i < s.len() ==> '0' <= #[trigger] s[i] <= '9'
    &&& text::digits_value(s) == port
}

/// A port is read off a text exactly where the text writes it in digits, with
/// or without a plus sign in front. Any other text, and no text, leads to
/// standard input and output.
pub proof fn law_ports_are_numbers(s: Seq<char>, port: u16)
    ensures
        !(s.len() > 0 && s[0] == '+') ==> (port_of(s) == Some(port) <==> writes_port(s, port)),
        port_of(seq!['+'] + s) == Some(port) <==> writes_port(s, port),
        transport_of(Some(s)) == (Transport::Http { port }) <==> port_of(s) == Some(port),
        port_of(s) is None ==> transport_of(Some(s)) is Stdio,
        transport_of(None) is Stdio,
{
    assert(unsigned_part(seq!['+'] + s) =~= s);
    if writes_port(s, port) {
        assert forall|i: int| 0 <= i < s.len() implies text::is_digit(#[trigger] s[i]) by {}
    }
    if is_number(s) {
        assert forall|i: int| 0 <= i < s.len() implies '0' <= #[trigger] s[i] <= '9' by {
            assert(text::is_digit(s[i]));
        }
    }
}

/// The server listens on every interface, on the port that was asked for.
pub proof fn law_listens_on_the_port(port: u16)
    ensures
        address_of(port).take(8) == seq!['0', '.', '0', '.', '0', '.', '0', ':'],
        port_of(address_of(port).skip(8)) == Some(port),
        address_of(port).skip(8) == text::decimal(port as nat),
{
    reveal_strlit("0.0.0.0:");
    assert(address_of(port).take(8) =~= seq!['0', '.', '0', '.', '0', '.', '0', ':']);
    assert(address_of(port).skip(8) =~= text::decimal(port as nat));
    lemma_decimal_reads_back(port as nat);
    assert(text::is_digit(text::decimal(port as nat)[0]));
}

/// The settings are what the environment says, and the defaults where it says
/// nothing: certificates are verified, Jobs run in the namespace of the service
/// account or else in `default`, helm comes from `alpine/helm:3`.
pub proof fn law_settings_follow_the_environment(env: Environment, config: Config)
    requires
        config_of(env@) == Ok::<ConfigView, Seq<char>>(config@),
    ensures
        env.rancher_url matches Some(url) && config.rancher_url@ == url@,
        env.rancher_token matches Some(token) && config.rancher_token@ == token@,
        match env.rancher_tls_verify {
            Some(text) => config.tls_verify <==> text@ != "false"@ && text@ != "0"@,
            None => config.tls_verify,
        },
        match env.job_namespace {
            Some(namespace) => config.job_namespace@ == namespace@,
            None => match env.service_account_namespace {
                Some(namespace) => config.job_namespace@ == namespace@,
                None => config.job_namespace@ == "default"@,
            },
        },
        match env.helm_image {
            Some(image) => config.helm_image@ == image@,
            None => config.helm_image@ == "alpine/helm:3"@,
        },
        match env.port {
            Some(text) => match port_of(text@) {
                Some(port) => config.transport == (Transport::Http { port }),
                None => config.transport is Stdio,
            },
            None => config.transport is Stdio,
        },
{
}

/// A missing URL is reported first, then a missing token.
pub proof fn law_missing_variables_are_named(env: Environment)
    ensures
        env.rancher_url is None ==> config_of(env@) == Err::<ConfigView, Seq<char>>(
            "RANCHER_URL environment variable is required"@,
        ),
        env.rancher_url is Some && env.rancher_token is None ==> config_of(env@) == Err::<
            ConfigView,
            Seq<char>,
        >("RANCHER_TOKEN environment variable is required"@),
        env.rancher_url is Some && env.rancher_token is Some ==> config_of(env@) is Ok,
{
}

} // verus!
