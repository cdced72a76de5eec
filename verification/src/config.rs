//! Server configuration: the running mode and the sizes of the thread pools.

use vstd::prelude::*;
use vstd::string::StringExecFns;
use crate::text::{ascii_lowercase, to_ascii_lowercase};

verus! {

/// The mode a server runs in.
#[derive(Clone, Copy, PartialEq, Eq, Structural, Debug)]
pub enum Mode {
    Dev,
    Prod,
}

/// The name of a mode, as `Mode::from_str` reads it back.
pub open spec fn mode_name(m: Mode) -> Seq<char> {
    match m {
        Mode::Dev => "dev"@,
        Mode::Prod => "prod"@,
    }
}

/// What `Mode::from_str` makes of a text.
pub open spec fn parse_mode(s: Seq<char>) -> Result<Mode, Seq<char>> {
    if ascii_lowercase(s) == "dev"@ {
        Ok(Mode::Dev)
    } else if ascii_lowercase(s) == "prod"@ {
        Ok(Mode::Prod)
    } else {
        Err("cannot convert to mode: "@ + s)
    }
}

impl Mode {
    /// Choose mode from string, ignoring ASCII case.
    pub fn from_str(s: &str) -> (r: Result<Mode, String>)
        ensures
            match r {
                Ok(m) => parse_mode(s@) == Ok::<Mode, Seq<char>>(m),
                Err(msg) => parse_mode(s@) == Err::<Mode, Seq<char>>(msg@),
            },
    {
        let lower = to_ascii_lowercase(s);
        if lower == "dev".to_owned() {
            Ok(Mode::Dev)
        } else if lower == "prod".to_owned() {
            Ok(Mode::Prod)
        } else {
            Err(String::from_str("cannot convert to mode: ").concat(s))
        }
    }

    /// Whether templates are loaded anew for every page: in every mode but
    /// production.
    pub fn reloads_templates(&self) -> (b: bool)
        ensures
            b == (*self != Mode::Prod),
    {
        match self {
            Mode::Prod => false,
            Mode::Dev => true,
        }
    }

    /// The name of the mode: `dev` or `prod`.
    pub fn to_string(&self) -> (r: String)
        ensures
            r@ == mode_name(*self),
    {
        match self {
            Mode::Dev => String::from_str("dev"),
            Mode::Prod => String::from_str("prod"),
        }
    }
}

/// Server configuration.
#[derive(Clone, Copy, Debug)]
pub struct ZirconConfig {
    mode: Mode,
    respect_xforwarded: bool,
    num_accept_threads: usize,
    num_cpu_threads: usize,
}

/// The acceptor threads a mode starts with.
pub open spec fn default_accept_threads(mode: Mode) -> usize {
    match mode {
        Mode::Dev => 1,
        Mode::Prod => 4,
    }
}

/// The worker threads a mode starts with.
pub open spec fn default_cpu_threads(mode: Mode) -> usize {
    match mode {
        Mode::Dev => 4,
        Mode::Prod => 16,
    }
}

impl ZirconConfig {
    pub closed spec fn spec_mode(&self) -> Mode {
        self.mode
    }

    pub closed spec fn spec_respect_xforwarded(&self) -> bool {
        self.respect_xforwarded
    }

    pub closed spec fn spec_num_accept_threads(&self) -> usize {
        self.num_accept_threads
    }

    pub closed spec fn spec_num_cpu_threads(&self) -> usize {
        self.num_cpu_threads
    }

    /// The default development configuration.
    pub fn dev() -> (c: ZirconConfig)
        ensures
            c.mode() == Mode::Dev,
            !c.respect_xforwarded(),
            c.num_accept_threads() == 1,
            c.num_cpu_threads() == 4,
    {
        Self::from_mode(Mode::Dev)
    }

    /// The default production configuration.
    pub fn prod() -> (c: ZirconConfig)
        ensures
            c.mode() == Mode::Prod,
            !c.respect_xforwarded(),
            c.num_accept_threads() == 4,
            c.num_cpu_threads() == 16,
    {
        Self::from_mode(Mode::Prod)
    }

    /// Choose configuration from mode.
    pub fn from_mode(mode: Mode) -> (c: ZirconConfig)
        ensures
            c.mode() == mode,
            !c.respect_xforwarded(),
            c.num_accept_threads() == default_accept_threads(mode),
            c.num_cpu_threads() == default_cpu_threads(mode),
    {
        let num_accept_threads: usize = match mode {
            Mode::Dev => 1,
            Mode::Prod => 4,
        };
        let num_cpu_threads: usize = match mode {
            Mode::Dev => 4,
            Mode::Prod => 16,
        };
        ZirconConfig {
            mode: mode,
            respect_xforwarded: false,
            num_accept_threads: num_accept_threads,
            num_cpu_threads: num_cpu_threads,
        }
    }

    /// When `respect_xforwarded` is true, a request reports what the
    /// `X-Forwarded-*` headers say instead of what the connection says.
    /// Useful behind a reverse proxy.
    pub fn with_respect_xforwarded(self, b: bool) -> (c: ZirconConfig)
        ensures
            c.respect_xforwarded() == b,
            c.mode() == self.mode(),
            c.num_accept_threads() == self.num_accept_threads(),
            c.num_cpu_threads() == self.num_cpu_threads(),
    {
        let mut c = self;
        c.respect_xforwarded = b;
        c
    }

    pub fn with_num_accept_threads(self, n: usize) -> (c: ZirconConfig)
        ensures
            c.num_accept_threads() == n,
            c.mode() == self.mode(),
            c.respect_xforwarded() == self.respect_xforwarded(),
            c.num_cpu_threads() == self.num_cpu_threads(),
    {
        let mut c = self;
        c.num_accept_threads = n;
        c
    }

    pub fn with_num_cpu_threads(self, n: usize) -> (c: ZirconConfig)
        ensures
            c.num_cpu_threads() == n,
            c.mode() == self.mode(),
            c.respect_xforwarded() == self.respect_xforwarded(),
            c.num_accept_threads() == self.num_accept_threads(),
    {
        let mut c = self;
        c.num_cpu_threads = n;
        c
    }

    /// Server mode of the current configuration.
    #[verifier::when_used_as_spec(spec_mode)]
    pub fn mode(&self) -> (m: Mode)
        ensures
            m == self.spec_mode(),
    {
        self.mode
    }

    /// Whether requests respect the `X-Forwarded-*` headers.
    #[verifier::when_used_as_spec(spec_respect_xforwarded)]
    pub fn respect_xforwarded(&self) -> (b: bool)
        ensures
            b == self.spec_respect_xforwarded(),
    {
        self.respect_xforwarded
    }

    #[verifier::when_used_as_spec(spec_num_accept_threads)]
    pub fn num_accept_threads(&self) -> (n: usize)
        ensures
            n == self.spec_num_accept_threads(),
    {
        self.num_accept_threads
    }

    #[verifier::when_used_as_spec(spec_num_cpu_threads)]
    pub fn num_cpu_threads(&self) -> (n: usize)
        ensures
            n == self.spec_num_cpu_threads(),
    {
        self.num_cpu_threads
    }
}

} // verus!
