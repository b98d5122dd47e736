use vstd::prelude::*;

verus! {

/// How notifications are acquired from the host notification subsystem.
#[derive(Clone, Copy, Debug, PartialEq, Eq, Structural)]
pub enum NotificationStrategy {
    /// Subscribe to change events and fetch each added notification.
    Listener,
    /// Take a snapshot of all live notifications at a fixed interval.
    Polling,
}

impl Default for NotificationStrategy {
    fn default() -> (r: Self)
        ensures
            r == NotificationStrategy::Listener,
    {
        NotificationStrategy::Listener
    }
}

/// The default UDP port of the overlay's notification daemon.
pub const DEFAULT_PORT: usize = 42069;

/// The default polling interval, in milliseconds.
pub const DEFAULT_POLLING_RATE: u64 = 250;

/// The default time a notification stays on screen, in milliseconds.
pub const DEFAULT_TIMEOUT_MS: u64 = 2000;

/// The effective configuration of the notifier.
///
/// `timeout_ms` holds the on-screen time in whole milliseconds; the wire
/// message carries it in seconds.
#[derive(Clone, Debug)]
pub struct NotifierConfig {
    pub port: usize,
    pub host: String,
    pub notification_strategy: NotificationStrategy,
    pub polling_rate: u64,
    pub timeout_ms: u64,
}

/// The mathematical value of a [`NotifierConfig`].
pub ghost struct ConfigView {
    pub port: usize,
    pub host: Seq<char>,
    pub notification_strategy: NotificationStrategy,
    pub polling_rate: u64,
    pub timeout_ms: u64,
}

impl View for NotifierConfig {
    type V = ConfigView;

    open spec fn view(&self) -> ConfigView {
        ConfigView {
            port: self.port,
            host: self.host@,
            notification_strategy: self.notification_strategy,
            polling_rate: self.polling_rate,
            timeout_ms: self.timeout_ms,
        }
    }
}

/// The built-in defaults.
pub open spec fn default_config() -> ConfigView {
    ConfigView {
        port: DEFAULT_PORT,
        host: "localhost"@,
        notification_strategy: NotificationStrategy::Listener,
        polling_rate: DEFAULT_POLLING_RATE,
        timeout_ms: DEFAULT_TIMEOUT_MS,
    }
}

impl Default for NotifierConfig {
    fn default() -> (r: Self)
        ensures
            r@ == default_config(),
    {
        NotifierConfig {
            port: DEFAULT_PORT,
            host: String::from_str("localhost"),
            notification_strategy: NotificationStrategy::Listener,
            polling_rate: DEFAULT_POLLING_RATE,
            timeout_ms: DEFAULT_TIMEOUT_MS,
        }
    }
}

/// The settings that one configuration source (a file, the environment, the
/// command line) gives; a field left `None` is not set by that source.
#[derive(Clone, Debug)]
pub struct ConfigLayer {
    pub port: Option<usize>,
    pub host: Option<String>,
    pub notification_strategy: Option<NotificationStrategy>,
    pub polling_rate: Option<u64>,
    pub timeout_ms: Option<u64>,
}

impl ConfigLayer {
    /// A layer that sets nothing.
    pub fn empty() -> (r: Self)
        ensures
            r.port is None,
            r.host is None,
            r.notification_strategy is None,
            r.polling_rate is None,
            r.timeout_ms is None,
    {
        ConfigLayer {
            port: None,
            host: None,
            notification_strategy: None,
            polling_rate: None,
            timeout_ms: None,
        }
    }
}

/// The value set by the last of `vals` that sets one, else `default`.
pub open spec fn topmost<T>(vals: Seq<Option<T>>, default: T) -> T
    decreases vals.len(),
{
    if vals.len() == 0 {
        default
    } else {
        match vals.last() {
            Some(v) => v,
            None => topmost(vals.drop_last(), default),
        }
    }
}

pub open spec fn host_view(h: Option<String>) -> Option<Seq<char>> {
    match h {
        Some(s) => Some(s@),
        None => None,
    }
}

/// The configuration that `layers` give, a later layer taking precedence
/// over an earlier one and every layer over the built-in defaults.
pub open spec fn layered(layers: Seq<ConfigLayer>) -> ConfigView {
    let d = default_config();
    ConfigView {
        port: topmost(layers.map_values(|l: ConfigLayer| l.port), d.port),
        host: topmost(layers.map_values(|l: ConfigLayer| host_view(l.host)), d.host),
        notification_strategy: topmost(
            layers.map_values(|l: ConfigLayer| l.notification_strategy),
            d.notification_strategy,
        ),
        polling_rate: topmost(layers.map_values(|l: ConfigLayer| l.polling_rate), d.polling_rate),
        timeout_ms: topmost(layers.map_values(|l: ConfigLayer| l.timeout_ms), d.timeout_ms),
    }
}

proof fn lemma_topmost_push<T>(vals: Seq<Option<T>>, v: Option<T>, default: T)
    ensures
        topmost(vals.push(v), default) == match v {
            Some(x) => x,
            None => topmost(vals, default),
        },
{
    assert(vals.push(v).drop_last() =~= vals);
}

impl NotifierConfig {
    /// Assembles the configuration from `layers`, given in ascending
    /// precedence (file, environment, command line): each setting comes from
    /// the last layer that sets it, else from the built-in default.
    pub fn with_layers(layers: &Vec<ConfigLayer>) -> (r: Self)
        ensures
            r@ == layered(layers@),
    {
        let mut r = NotifierConfig::default();
        let ghost d = default_config();
        let mut i: usize = 0;
        while i < layers.len()
            invariant
                i <= layers.len(),
                d == default_config(),
                r@ == layered(layers@.take(i as int)),
            decreases layers.len() - i,
        {
            let ghost pre = layers@.take(i as int);
            let layer = &layers[i];
            proof {
                let next = layers@.take(i + 1);
                assert(next =~= pre.push(*layer));
                assert(next.map_values(|l: ConfigLayer| l.port) =~= pre.map_values(
                    |l: ConfigLayer| l.port,
                ).push(layer.port));
                assert(next.map_values(|l: ConfigLayer| host_view(l.host)) =~= pre.map_values(
                    |l: ConfigLayer| host_view(l.host),
                ).push(host_view(layer.host)));
                assert(next.map_values(|l: ConfigLayer| l.notification_strategy) =~= pre.map_values(
                    |l: ConfigLayer| l.notification_strategy,
                ).push(layer.notification_strategy));
                assert(next.map_values(|l: ConfigLayer| l.polling_rate) =~= pre.map_values(
                    |l: ConfigLayer| l.polling_rate,
                ).push(layer.polling_rate));
                assert(next.map_values(|l: ConfigLayer| l.timeout_ms) =~= pre.map_values(
                    |l: ConfigLayer| l.timeout_ms,
                ).push(layer.timeout_ms));
                lemma_topmost_push(pre.map_values(|l: ConfigLayer| l.port), layer.port, d.port);
                lemma_topmost_push(
                    pre.map_values(|l: ConfigLayer| host_view(l.host)),
                    host_view(layer.host),
                    d.host,
                );
                lemma_topmost_push(
                    pre.map_values(|l: ConfigLayer| l.notification_strategy),
                    layer.notification_strategy,
                    d.notification_strategy,
                );
                lemma_topmost_push(
                    pre.map_values(|l: ConfigLayer| l.polling_rate),
                    layer.polling_rate,
                    d.polling_rate,
                );
                lemma_topmost_push(
                    pre.map_values(|l: ConfigLayer| l.timeout_ms),
                    layer.timeout_ms,
                    d.timeout_ms,
                );
            }
            if let Some(p) = layer.port {
                r.port = p;
            }
            match &layer.host {
                Some(h) => {
                    r.host = h.clone();
                },
                None => {},
            }
            if let Some(s) = layer.notification_strategy {
                r.notification_strategy = s;
            }
            if let Some(p) = layer.polling_rate {
                r.polling_rate = p;
            }
            if let Some(t) = layer.timeout_ms {
                r.timeout_ms = t;
            }
            i = i + 1;
        }
        assert(layers@.take(layers.len() as int) =~= layers@);
        r
    }
}

/// Precedence of the three configuration sources: a setting given on the
/// command line wins over the environment, which wins over the file, which
/// wins over the built-in default.
pub proof fn layered_precedence(file: ConfigLayer, env: ConfigLayer, cli: ConfigLayer)
    ensures
        layered(seq![file, env, cli]).host == match (host_view(cli.host), host_view(env.host), host_view(file.host)) {
            (Some(z), _, _) => z,
            (None, Some(y), _) => y,
            (None, None, Some(x)) => x,
            (None, None, None) => "localhost"@,
        },
        layered(seq![file, env, cli]).port == match (cli.port, env.port, file.port) {
            (Some(z), _, _) => z,
            (None, Some(y), _) => y,
            (None, None, Some(x)) => x,
            (None, None, None) => DEFAULT_PORT,
        },
        layered(seq![file, env, cli]).notification_strategy == match (
            cli.notification_strategy,
            env.notification_strategy,
            file.notification_strategy,
        ) {
            (Some(z), _, _) => z,
            (None, Some(y), _) => y,
            (None, None, Some(x)) => x,
            (None, None, None) => NotificationStrategy::Listener,
        },
        layered(seq![file, env, cli]).polling_rate == match (cli.polling_rate, env.polling_rate, file.polling_rate) {
            (Some(z), _, _) => z,
            (None, Some(y), _) => y,
            (None, None, Some(x)) => x,
            (None, None, None) => DEFAULT_POLLING_RATE,
        },
        layered(seq![file, env, cli]).timeout_ms == match (cli.timeout_ms, env.timeout_ms, file.timeout_ms) {
            (Some(z), _, _) => z,
            (None, Some(y), _) => y,
            (None, None, Some(x)) => x,
            (None, None, None) => DEFAULT_TIMEOUT_MS,
        },
{
    let ls = seq![file, env, cli];
    three_layers(host_view(file.host), host_view(env.host), host_view(cli.host), "localhost"@);
    assert(ls.map_values(|l: ConfigLayer| host_view(l.host)) =~= seq![
        host_view(file.host),
        host_view(env.host),
        host_view(cli.host),
    ]);
    three_layers(file.port, env.port, cli.port, DEFAULT_PORT);
    assert(ls.map_values(|l: ConfigLayer| l.port) =~= seq![file.port, env.port, cli.port]);
    three_layers(file.notification_strategy, env.notification_strategy, cli.notification_strategy, NotificationStrategy::Listener);
    assert(ls.map_values(|l: ConfigLayer| l.notification_strategy) =~= seq![
        file.notification_strategy,
        env.notification_strategy,
        cli.notification_strategy,
    ]);
    three_layers(file.polling_rate, env.polling_rate, cli.polling_rate, DEFAULT_POLLING_RATE);
    assert(ls.map_values(|l: ConfigLayer| l.polling_rate) =~= seq![file.polling_rate, env.polling_rate, cli.polling_rate]);
    three_layers(file.timeout_ms, env.timeout_ms, cli.timeout_ms, DEFAULT_TIMEOUT_MS);
    assert(ls.map_values(|l: ConfigLayer| l.timeout_ms) =~= seq![file.timeout_ms, env.timeout_ms, cli.timeout_ms]);
}

proof fn three_layers<T>(a: Option<T>, b: Option<T>, c: Option<T>, default: T)
    ensures
        topmost(seq![a, b, c], default) == match (c, b, a) {
            (Some(z), _, _) => z,
            (None, Some(y), _) => y,
            (None, None, Some(x)) => x,
            (None, None, None) => default,
        },
{
    let e = Seq::<Option<T>>::empty();
    assert(seq![a] =~= e.push(a));
    assert(seq![a, b] =~= seq![a].push(b));
    assert(seq![a, b, c] =~= seq![a, b].push(c));
    lemma_topmost_push(e, a, default);
    lemma_topmost_push(seq![a], b, default);
    lemma_topmost_push(seq![a, b], c, default);
}

} // verus!
