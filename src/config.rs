//! The exporter's configuration: where to scrape, where to push, and under
//! which labels.
use vstd::prelude::*;

verus! {

/// Seconds between two scrapes when nothing else is given.
pub const DEFAULT_SCRAPE_INTERVAL: u64 = 15;

/// The source address used when none is given.
pub open spec fn default_scrape_addr() -> Seq<char> {
    "http://127.0.0.1:9090"@
}

/// The destination address used when none is given: empty, which disables pushing.
pub open spec fn default_push_addr() -> Seq<char> {
    Seq::empty()
}

/// The job label used when none is given.
pub open spec fn default_job() -> Seq<char> {
    "metrics_exporter"@
}

/// The instance label built from a generated name.
pub open spec fn instance_from_name(name: Seq<char>) -> Seq<char> {
    "devbox-"@ + name
}

/// The text of a given value, or `d` where none is given.
pub open spec fn text_or(o: Option<String>, d: Seq<char>) -> Seq<char> {
    match o {
        Some(s) => s@,
        None => d,
    }
}

/// Relies on names::Generator (default word lists, plain naming): its `next`
/// always yields `Some` name, drawn at random.
#[verifier::external_body]
fn generated_name() -> (r: Option<String>)
    ensures
        r is Some,
{
    let mut generator = names::Generator::default();
    generator.next()
}

/// The settings shared read-only by the scrape and push loops.
pub struct Config {
    pub scrape_addr: String,
    pub push_addr: String,
    pub instance: String,
    pub job: String,
    pub scrape_interval: u64,
}

impl Config {
    /// Whether this holds the default settings, with `name` as the generated name.
    pub open spec fn is_default_named(&self, name: Seq<char>) -> bool {
        &&& self.scrape_addr@ == default_scrape_addr()
        &&& self.push_addr@ == default_push_addr()
        &&& self.instance@ == instance_from_name(name)
        &&& self.job@ == default_job()
        &&& self.scrape_interval == DEFAULT_SCRAPE_INTERVAL
    }

    /// Whether this holds the default settings for some generated name.
    pub open spec fn is_default(&self) -> bool {
        exists|name: Seq<char>| self.is_default_named(name)
    }

    /// The default settings, labelled with the given generated name.
    pub fn default_named(name: String) -> (r: Config)
        ensures
            r.is_default_named(name@),
    {
        Config {
            scrape_addr: String::from_str("http://127.0.0.1:9090"),
            push_addr: String::new(),
            instance: String::from_str("devbox-").concat(name.as_str()),
            job: String::from_str("metrics_exporter"),
            scrape_interval: DEFAULT_SCRAPE_INTERVAL,
        }
    }

    /// The default settings, labelled with a freshly generated name.
    pub fn new() -> (r: Config)
        ensures
            r.is_default(),
    {
        let name = generated_name().unwrap();
        let ghost g = name@;
        let r = Config::default_named(name);
        assert(r.is_default_named(g));
        r
    }

    /// The settings built from the given overrides, with `name` as the
    /// generated name: each given value replaces its default.
    pub fn new_from_args_named(
        scrape_addr: Option<String>,
        push_addr: Option<String>,
        instance: Option<String>,
        job: Option<String>,
        push_interval: Option<u64>,
        name: String,
    ) -> (r: Config)
        ensures
            r.scrape_addr@ == text_or(scrape_addr, default_scrape_addr()),
            r.push_addr@ == text_or(push_addr, default_push_addr()),
            r.instance@ == text_or(instance, instance_from_name(name@)),
            r.job@ == text_or(job, default_job()),
            r.scrape_interval == match push_interval {
                Some(n) => n,
                None => DEFAULT_SCRAPE_INTERVAL,
            },
    {
        let mut cfg = Config::default_named(name);
        if let Some(s) = scrape_addr {
            cfg.scrape_addr = s;
        }
        if let Some(s) = push_addr {
            cfg.push_addr = s;
        }
        if let Some(s) = instance {
            cfg.instance = s;
        }
        if let Some(s) = job {
            cfg.job = s;
        }
        if let Some(n) = push_interval {
            cfg.scrape_interval = n;
        }
        cfg
    }

    /// The settings built from the given overrides; the instance label, where
    /// none is given, comes from a freshly generated name.
    pub fn new_from_args(
        scrape_addr: Option<String>,
        push_addr: Option<String>,
        instance: Option<String>,
        job: Option<String>,
        push_interval: Option<u64>,
    ) -> (r: Config)
        ensures
            r.scrape_addr@ == text_or(scrape_addr, default_scrape_addr()),
            r.push_addr@ == text_or(push_addr, default_push_addr()),
            instance is Some ==> r.instance@ == instance->0@,
            instance is None ==> exists|name: Seq<char>| r.instance@ == instance_from_name(name),
            r.job@ == text_or(job, default_job()),
            r.scrape_interval == match push_interval {
                Some(n) => n,
                None => DEFAULT_SCRAPE_INTERVAL,
            },
    {
        let name = generated_name().unwrap();
        let ghost g = name@;
        let r = Config::new_from_args_named(scrape_addr, push_addr, instance, job, push_interval, name);
        assert(instance is None ==> r.instance@ == instance_from_name(g));
        r
    }

    /// The lines that describe these settings, one `key: value` per line.
    pub fn describe(&self) -> (r: String)
        ensures
            r@ == summary_text(self),
    {
        let mut s = String::from_str("name: ");
        s.append(self.instance.as_str());
        s.append("\nscrape_address: ");
        s.append(self.scrape_addr.as_str());
        s.append("\npush_address: ");
        s.append(self.push_addr.as_str());
        s.append("\njob_name: ");
        s.append(self.job.as_str());
        s.append("\nscrape_interval: ");
        let n = decimal_text(self.scrape_interval);
        s.append(n.as_str());
        s
    }
}

impl Default for Config {
    fn default() -> (r: Config)
        ensures
            r.is_default(),
    {
        Config::new()
    }
}

/// The ten decimal digits, in order.
pub open spec fn digit_char(d: nat) -> char {
    seq!['0', '1', '2', '3', '4', '5', '6', '7', '8', '9'][d as int]
}

/// The decimal numeral of `n`, without sign or leading zeros.
pub open spec fn decimal(n: nat) -> Seq<char>
    decreases n,
{
    if n < 10 {
        seq![digit_char(n)]
    } else {
        decimal(n / 10).push(digit_char(n % 10))
    }
}

/// The description of a configuration: one `key: value` per line.
pub open spec fn summary_text(c: &Config) -> Seq<char> {
    "name: "@ + c.instance@ + "\nscrape_address: "@ + c.scrape_addr@ + "\npush_address: "@
        + c.push_addr@ + "\njob_name: "@ + c.job@ + "\nscrape_interval: "@ + decimal(
        c.scrape_interval as nat,
    )
}

/// Relies on `u64`'s `ToString` (through `Display`): the decimal numeral.
#[verifier::external_body]
fn decimal_text(n: u64) -> (r: String)
    ensures
        r@ == decimal(n as nat),
{
    n.to_string()
}

} // verus!
