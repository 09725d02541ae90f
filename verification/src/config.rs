//! The validated configuration of the three phases, and how it is read from
//! the raw command line.

use crate::cli::Args;
use crate::duration::{duration_of, parse_duration, Duration};
use crate::error::{Error, ErrorView};
use crate::text::{parse_i32, signed_of, split, split_on, trim, trimmed, views};
use std::collections::HashSet;
use vstd::prelude::*;
use vstd::string::*;

verus! {

/// Everything one run needs to know.
#[derive(Debug)]
pub struct Config {
    pub wait: WaitConfig,
    pub watch: WatchConfig,
    pub retry: RetryConfig,
    pub command: Vec<String>,
}

/// What must hold before the command starts, and for how long to wait for it.
#[derive(Debug)]
pub struct WaitConfig {
    pub tcp: Vec<String>,
    pub tcp_timeout: Duration,
    pub http: Vec<String>,
    pub http_timeout: Duration,
    pub files: Vec<String>,
    pub delays: Vec<Duration>,
    pub timeout: Duration,
}

/// What is polled while the command runs, how often, and for how long the
/// command may run at most.
#[derive(Debug)]
pub struct WatchConfig {
    pub http: Vec<String>,
    pub http_interval: Duration,
    pub http_timeout: Duration,
    pub tcp: Vec<String>,
    pub tcp_interval: Duration,
    pub tcp_timeout: Duration,
    pub files: Vec<String>,
    pub file_interval: Duration,
    pub timeout: Option<Duration>,
}

/// When and how a failed command is run again.
#[derive(Debug)]
pub struct RetryConfig {
    /// Absent: no retries. Zero: retries without limit. Otherwise the number
    /// of retries.
    pub times: Option<u32>,
    pub delay: Duration,
    pub backoff: bool,
    /// The exit codes that call for a retry; absent where every failure does.
    pub exit_codes: Option<HashSet<i32>>,
    pub with_wait: bool,
}

impl WatchConfig {
    /// Every poll interval is longer than nothing.
    pub open spec fn valid(&self) -> bool {
        &&& self.http_interval@ > 0
        &&& self.tcp_interval@ > 0
        &&& self.file_interval@ > 0
    }

    /// Whether every poll interval is longer than nothing.
    pub fn is_valid(&self) -> (ok: bool)
        ensures
            ok == self.valid(),
    {
        !self.http_interval.is_zero() && !self.tcp_interval.is_zero()
            && !self.file_interval.is_zero()
    }
}

/// The first entry of `items` that holds a value.
pub open spec fn first_some<A>(items: Seq<Option<A>>) -> Option<A>
    decreases items.len(),
{
    if items.len() == 0 {
        None
    } else if items.first() is Some {
        items.first()
    } else {
        first_some(items.drop_first())
    }
}

/// Where everything before position `p` is empty and position `p` is not,
/// the first value is the one at `p`.
pub proof fn lemma_first_some_at<A>(items: Seq<Option<A>>, p: int)
    requires
        0 <= p < items.len(),
        forall|k: int| 0 <= k < p ==> items[k] is None,
        items[p] is Some,
    ensures
        first_some(items) == items[p],
    decreases p,
{
    if p > 0 {
        lemma_first_some_at(items.drop_first(), p - 1);
    }
}

/// Where every entry is empty, there is no first value.
pub proof fn lemma_first_some_none<A>(items: Seq<Option<A>>)
    requires
        forall|k: int| 0 <= k < items.len() ==> items[k] is None,
    ensures
        first_some(items) is None,
    decreases items.len(),
{
    if items.len() > 0 {
        lemma_first_some_none(items.drop_first());
    }
}

/// What is wrong with a span written as `raw`, if anything.
pub open spec fn duration_error(raw: Seq<char>) -> Option<ErrorView> {
    match duration_of(raw) {
        Ok(_) => None,
        Err(reason) => Some(ErrorView::InvalidDuration(reason)),
    }
}

/// What is wrong with a poll interval written as `raw` for the option
/// `option_name`, if anything: it must be a span, and not an empty one.
pub open spec fn interval_error(raw: Seq<char>, option_name: Seq<char>) -> Option<ErrorView> {
    match duration_of(raw) {
        Ok(n) => if n == 0 {
            Some(ErrorView::InvalidDuration(option_name + " must be greater than 0"@))
        } else {
            None
        },
        Err(reason) => Some(ErrorView::InvalidDuration(reason)),
    }
}

/// What is wrong with the first malformed span among `raws`, if any is.
pub open spec fn delays_error(raws: Seq<Seq<char>>) -> Option<ErrorView> {
    first_some(raws.map_values(|raw: Seq<char>| duration_error(raw)))
}

/// What is wrong with an optional span, if it is there and malformed.
pub open spec fn optional_duration_error(raw: Option<String>) -> Option<ErrorView> {
    match raw {
        Some(text) => duration_error(text@),
        None => None,
    }
}

/// The pieces of all `lists`, each list split at its commas, in order.
pub open spec fn code_pieces(lists: Seq<Seq<char>>) -> Seq<Seq<char>>
    decreases lists.len(),
{
    if lists.len() == 0 {
        Seq::empty()
    } else {
        code_pieces(lists.drop_last()) + split_on(lists.last(), ',')
    }
}

/// The exit code that `piece` writes, white space around it ignored.
pub open spec fn exit_code_of(piece: Seq<char>) -> Option<i32> {
    signed_of(trimmed(piece))
}

/// What is wrong with `piece` as an exit code, if anything.
pub open spec fn exit_code_error(piece: Seq<char>) -> Option<ErrorView> {
    if exit_code_of(piece) is None {
        Some(ErrorView::InvalidExitCode(piece))
    } else {
        None
    }
}

/// What is wrong with the first malformed exit code in `lists`, if any is.
pub open spec fn codes_error(lists: Seq<Seq<char>>) -> Option<ErrorView> {
    first_some(code_pieces(lists).map_values(|piece: Seq<char>| exit_code_error(piece)))
}

/// The exit codes that `pieces` write.
pub open spec fn codes_in(pieces: Seq<Seq<char>>) -> Set<i32> {
    Set::new(
        |code: i32|
            exists|i: int| 0 <= i < pieces.len() && exit_code_of(#[trigger] pieces[i]) == Some(code),
    )
}

/// The retry filter that `lists` ask for: none where no list is given,
/// else the set of all codes in them.
pub open spec fn exit_codes_of(lists: Seq<Seq<char>>) -> Option<Set<i32>> {
    if lists.len() == 0 {
        None
    } else {
        Some(codes_in(code_pieces(lists)))
    }
}

/// The pieces of the first `k` lists open the pieces of all lists.
pub proof fn lemma_code_pieces_prefix(lists: Seq<Seq<char>>, k: int)
    requires
        0 <= k <= lists.len(),
    ensures
        code_pieces(lists.take(k)).len() <= code_pieces(lists).len(),
        code_pieces(lists).take(code_pieces(lists.take(k)).len() as int) == code_pieces(
            lists.take(k),
        ),
    decreases lists.len(),
{
    if k == lists.len() {
        assert(lists.take(k) =~= lists);
        assert(code_pieces(lists).take(code_pieces(lists).len() as int) =~= code_pieces(lists));
    } else {
        lemma_code_pieces_prefix(lists.drop_last(), k);
        assert(lists.drop_last().take(k) =~= lists.take(k));
        let inner = code_pieces(lists.drop_last());
        let n = code_pieces(lists.take(k)).len() as int;
        assert(code_pieces(lists).take(n) =~= inner.take(n));
    }
}

/// What is wrong with the command line, if anything: the first malformed
/// value in the order wait phase, watch phase, retry filter, retry delay.
pub open spec fn config_error(args: &Args) -> Option<ErrorView> {
    if duration_error(args.wait_tcp_timeout@) is Some {
        duration_error(args.wait_tcp_timeout@)
    } else if duration_error(args.wait_http_timeout@) is Some {
        duration_error(args.wait_http_timeout@)
    } else if delays_error(views(args.wait_delay@)) is Some {
        delays_error(views(args.wait_delay@))
    } else if duration_error(args.wait_timeout@) is Some {
        duration_error(args.wait_timeout@)
    } else if interval_error(args.watch_http_interval@, "--watch-http-interval"@) is Some {
        interval_error(args.watch_http_interval@, "--watch-http-interval"@)
    } else if duration_error(args.watch_http_timeout@) is Some {
        duration_error(args.watch_http_timeout@)
    } else if interval_error(args.watch_tcp_interval@, "--watch-tcp-interval"@) is Some {
        interval_error(args.watch_tcp_interval@, "--watch-tcp-interval"@)
    } else if duration_error(args.watch_tcp_timeout@) is Some {
        duration_error(args.watch_tcp_timeout@)
    } else if interval_error(args.watch_file_interval@, "--watch-file-interval"@) is Some {
        interval_error(args.watch_file_interval@, "--watch-file-interval"@)
    } else if optional_duration_error(args.watch_timeout) is Some {
        optional_duration_error(args.watch_timeout)
    } else if codes_error(views(args.retry_if@)) is Some {
        codes_error(views(args.retry_if@))
    } else {
        duration_error(args.retry_delay@)
    }
}

impl Config {
    /// Whether this configuration says what the well-formed command line
    /// `args` says: targets, flags and command carried over, each span and
    /// exit code read from its text.
    pub open spec fn built_from(&self, args: &Args) -> bool {
        &&& self.wait.tcp == args.wait_tcp
        &&& duration_of(args.wait_tcp_timeout@) == Ok::<nat, Seq<char>>(self.wait.tcp_timeout@)
        &&& self.wait.http == args.wait_http
        &&& duration_of(args.wait_http_timeout@) == Ok::<nat, Seq<char>>(self.wait.http_timeout@)
        &&& self.wait.files == args.wait_file
        &&& self.wait.delays@.len() == args.wait_delay@.len()
        &&& forall|i: int|
            0 <= i < args.wait_delay@.len() ==> duration_of(#[trigger] args.wait_delay@[i]@)
                == Ok::<nat, Seq<char>>(self.wait.delays@[i]@)
        &&& duration_of(args.wait_timeout@) == Ok::<nat, Seq<char>>(self.wait.timeout@)
        &&& self.watch.http == args.watch_http
        &&& duration_of(args.watch_http_interval@) == Ok::<nat, Seq<char>>(
            self.watch.http_interval@,
        )
        &&& duration_of(args.watch_http_timeout@) == Ok::<nat, Seq<char>>(
            self.watch.http_timeout@,
        )
        &&& self.watch.tcp == args.watch_tcp
        &&& duration_of(args.watch_tcp_interval@) == Ok::<nat, Seq<char>>(
            self.watch.tcp_interval@,
        )
        &&& duration_of(args.watch_tcp_timeout@) == Ok::<nat, Seq<char>>(self.watch.tcp_timeout@)
        &&& self.watch.files == args.watch_file
        &&& duration_of(args.watch_file_interval@) == Ok::<nat, Seq<char>>(
            self.watch.file_interval@,
        )
        &&& match args.watch_timeout {
            Some(raw) => self.watch.timeout is Some && duration_of(raw@) == Ok::<nat, Seq<char>>(
                self.watch.timeout->0@,
            ),
            None => self.watch.timeout is None,
        }
        &&& self.watch.valid()
        &&& self.retry.times == args.retry_times
        &&& duration_of(args.retry_delay@) == Ok::<nat, Seq<char>>(self.retry.delay@)
        &&& self.retry.backoff == args.retry_backoff
        &&& match self.retry.exit_codes {
            Some(codes) => exit_codes_of(views(args.retry_if@)) == Some(codes@),
            None => exit_codes_of(views(args.retry_if@)) is None,
        }
        &&& self.retry.with_wait == args.retry_with_wait
        &&& self.command == args.command
    }

    /// Reads the configuration from the raw command line, or says what is
    /// wrong with the first malformed value in it.
    pub fn from_args(args: Args) -> (r: Result<Config, Error>)
        ensures
            match r {
                Ok(config) => config_error(&args) is None && config.built_from(&args),
                Err(e) => config_error(&args) == Some(e@),
            },
    {
        let wait_tcp_timeout = parse_span(args.wait_tcp_timeout.as_str())?;
        let wait_http_timeout = parse_span(args.wait_http_timeout.as_str())?;
        let delays = parse_delays(&args.wait_delay)?;
        let wait_timeout = parse_span(args.wait_timeout.as_str())?;
        let http_interval = parse_non_zero_duration(
            args.watch_http_interval.as_str(),
            "--watch-http-interval",
        )?;
        let watch_http_timeout = parse_span(args.watch_http_timeout.as_str())?;
        let tcp_interval = parse_non_zero_duration(
            args.watch_tcp_interval.as_str(),
            "--watch-tcp-interval",
        )?;
        let watch_tcp_timeout = parse_span(args.watch_tcp_timeout.as_str())?;
        let file_interval = parse_non_zero_duration(
            args.watch_file_interval.as_str(),
            "--watch-file-interval",
        )?;
        let watch_timeout = parse_optional_duration(&args.watch_timeout)?;
        let exit_codes = parse_exit_codes(&args.retry_if)?;
        let retry_delay = parse_span(args.retry_delay.as_str())?;
        let wait = WaitConfig {
            tcp: args.wait_tcp,
            tcp_timeout: wait_tcp_timeout,
            http: args.wait_http,
            http_timeout: wait_http_timeout,
            files: args.wait_file,
            delays,
            timeout: wait_timeout,
        };
        let watch = WatchConfig {
            http: args.watch_http,
            http_interval,
            http_timeout: watch_http_timeout,
            tcp: args.watch_tcp,
            tcp_interval,
            tcp_timeout: watch_tcp_timeout,
            files: args.watch_file,
            file_interval,
            timeout: watch_timeout,
        };
        let retry = RetryConfig {
            times: args.retry_times,
            delay: retry_delay,
            backoff: args.retry_backoff,
            exit_codes,
            with_wait: args.retry_with_wait,
        };
        Ok(Config { wait, watch, retry, command: args.command })
    }
}

/// Reads a span, saying what is wrong with it in the terms of
/// [`duration_error`].
fn parse_span(raw: &str) -> (r: Result<Duration, Error>)
    ensures
        match r {
            Ok(d) => duration_error(raw@) is None && duration_of(raw@) == Ok::<nat, Seq<char>>(d@),
            Err(e) => duration_error(raw@) == Some(e@),
        },
{
    parse_duration(raw)
}

/// Reads a poll interval given for the option `option_name`: a span that is
/// not empty.
pub fn parse_non_zero_duration(raw: &str, option_name: &str) -> (r: Result<Duration, Error>)
    ensures
        match r {
            Ok(d) => interval_error(raw@, option_name@) is None && duration_of(raw@) == Ok::<
                nat,
                Seq<char>,
            >(d@) && d@ > 0,
            Err(e) => interval_error(raw@, option_name@) == Some(e@),
        },
{
    let duration = parse_duration(raw)?;
    if duration.is_zero() {
        return Err(
            Error::InvalidDuration(String::from_str(option_name).concat(" must be greater than 0")),
        );
    }
    Ok(duration)
}

/// Reads the span of an option that may be absent.
fn parse_optional_duration(raw: &Option<String>) -> (r: Result<Option<Duration>, Error>)
    ensures
        match r {
            Ok(None) => *raw is None,
            Ok(Some(d)) => *raw is Some && duration_of(raw->0@) == Ok::<nat, Seq<char>>(d@),
            Err(e) => optional_duration_error(*raw) == Some(e@),
        },
        r is Ok ==> optional_duration_error(*raw) is None,
{
    match raw {
        Some(text) => {
            let d = parse_span(text.as_str())?;
            Ok(Some(d))
        },
        None => Ok(None),
    }
}

/// Reads the pauses of the wait phase, in order.
fn parse_delays(raws: &Vec<String>) -> (r: Result<Vec<Duration>, Error>)
    ensures
        match r {
            Ok(delays) => {
                &&& delays_error(views(raws@)) is None
                &&& delays@.len() == raws@.len()
                &&& forall|i: int|
                    0 <= i < raws@.len() ==> duration_of(#[trigger] raws@[i]@) == Ok::<
                        nat,
                        Seq<char>,
                    >(delays@[i]@)
            },
            Err(e) => delays_error(views(raws@)) == Some(e@),
        },
{
    let ghost checks = views(raws@).map_values(|raw: Seq<char>| duration_error(raw));
    let mut delays: Vec<Duration> = Vec::new();
    let mut i: usize = 0;
    while i < raws.len()
        invariant
            i <= raws@.len(),
            checks == views(raws@).map_values(|raw: Seq<char>| duration_error(raw)),
            delays@.len() == i,
            forall|k: int| 0 <= k < i ==> checks[k] is None,
            forall|k: int|
                0 <= k < i ==> duration_of(#[trigger] raws@[k]@) == Ok::<nat, Seq<char>>(
                    delays@[k]@,
                ),
        decreases raws@.len() - i,
    {
        match parse_span(raws[i].as_str()) {
            Ok(d) => {
                delays.push(d);
            },
            Err(e) => {
                proof {
                    lemma_first_some_at(checks, i as int);
                }
                return Err(e);
            },
        }
        i += 1;
    }
    proof {
        lemma_first_some_none(checks);
    }
    Ok(delays)
}

/// Reads one exit code of a retry filter.
fn parse_exit_code(piece: &str) -> (r: Result<i32, Error>)
    ensures
        match r {
            Ok(code) => exit_code_of(piece@) == Some(code),
            Err(e) => exit_code_error(piece@) == Some(e@),
        },
{
    match parse_i32(trim(piece)) {
        Some(code) => Ok(code),
        None => Err(Error::InvalidExitCode(String::from_str(piece))),
    }
}

/// Reads the retry filter: none where no list is given, else every code of
/// every comma-separated list.
fn parse_exit_codes(lists: &Vec<String>) -> (r: Result<Option<HashSet<i32>>, Error>)
    ensures
        match r {
            Ok(Some(codes)) => exit_codes_of(views(lists@)) == Some(codes@),
            Ok(None) => exit_codes_of(views(lists@)) is None,
            Err(e) => codes_error(views(lists@)) == Some(e@),
        },
        r is Ok ==> codes_error(views(lists@)) is None,
{
    broadcast use vstd::std_specs::hash::group_hash_axioms;

    let ghost all = code_pieces(views(lists@));
    let ghost checks = all.map_values(|piece: Seq<char>| exit_code_error(piece));
    if lists.len() == 0 {
        proof {
            lemma_first_some_none(checks);
        }
        return Ok(None);
    }
    let mut codes: HashSet<i32> = HashSet::new();
    let mut i: usize = 0;
    assert(views(lists@).take(0) =~= Seq::<Seq<char>>::empty());
    assert(codes@ =~= codes_in(code_pieces(views(lists@).take(0))));
    while i < lists.len()
        invariant
            i <= lists@.len(),
            all == code_pieces(views(lists@)),
            checks == all.map_values(|piece: Seq<char>| exit_code_error(piece)),
            codes@ == codes_in(code_pieces(views(lists@).take(i as int))),
            forall|k: int|
                0 <= k < code_pieces(views(lists@).take(i as int)).len() ==> exit_code_error(
                    #[trigger] code_pieces(views(lists@).take(i as int))[k],
                ) is None,
        decreases lists@.len() - i,
    {
        let ghost done = code_pieces(views(lists@).take(i as int));
        let ghost list = views(lists@)[i as int];
        let ghost upto = code_pieces(views(lists@).take(i as int + 1));
        proof {
            assert(views(lists@).take(i as int + 1).drop_last() =~= views(lists@).take(i as int));
            assert(upto == done + split_on(list, ','));
            lemma_code_pieces_prefix(views(lists@), i as int + 1);
        }
        let pieces = split(lists[i].as_str(), ',');
        let mut j: usize = 0;
        assert(done + views(pieces@).take(0) =~= done);
        while j < pieces.len()
            invariant
                j <= pieces@.len(),
                views(pieces@) == split_on(list, ','),
                upto == done + split_on(list, ','),
                upto.len() <= all.len(),
                all == code_pieces(views(lists@)),
                all.take(upto.len() as int) == upto,
                checks == all.map_values(|piece: Seq<char>| exit_code_error(piece)),
                codes@ == codes_in(done + views(pieces@).take(j as int)),
                forall|k: int|
                    0 <= k < done.len() + j ==> exit_code_error(
                        #[trigger] (done + views(pieces@).take(j as int))[k],
                    ) is None,
            decreases pieces@.len() - j,
        {
            let ghost seen = done + views(pieces@).take(j as int);
            let ghost piece = views(pieces@)[j as int];
            let ghost next = done + views(pieces@).take(j as int + 1);
            proof {
                assert(next =~= seen.push(piece));
                assert(piece == pieces@[j as int]@);
                assert(upto[done.len() + j] == piece);
                assert(all[done.len() + j] == all.take(upto.len() as int)[done.len() + j]);
            }
            match parse_exit_code(pieces[j].as_str()) {
                Ok(code) => {
                    codes.insert(code);
                    proof {
                        assert forall|c: i32| codes_in(next).contains(c) <==> codes_in(
                            seen,
                        ).insert(code).contains(c) by {
                            if codes_in(next).contains(c) {
                                let w = choose|w: int|
                                    0 <= w < next.len() && exit_code_of(#[trigger] next[w])
                                        == Some(c);
                                if w < seen.len() {
                                    assert(seen[w] == next[w]);
                                }
                            }
                            if codes_in(seen).contains(c) {
                                let w = choose|w: int|
                                    0 <= w < seen.len() && exit_code_of(#[trigger] seen[w])
                                        == Some(c);
                                assert(next[w] == seen[w]);
                            }
                            if c == code {
                                assert(next[seen.len() as int] == piece);
                            }
                        }
                        assert(codes@ =~= codes_in(next));
                        assert forall|k: int| 0 <= k < done.len() + j + 1 implies exit_code_error(
                            #[trigger] next[k],
                        ) is None by {
                            if k < seen.len() {
                                assert(next[k] == seen[k]);
                            }
                        }
                    }
                },
                Err(e) => {
                    proof {
                        let p = done.len() + j;
                        assert forall|k: int| 0 <= k < p implies checks[k] is None by {
                            assert(all[k] == all.take(upto.len() as int)[k]);
                            assert(upto[k] == seen[k]);
                        }
                        assert(all[p] == piece);
                        assert(checks[p] == exit_code_error(all[p]));
                        lemma_first_some_at(checks, p as int);
                    }
                    return Err(e);
                },
            }
            j += 1;
        }
        proof {
            assert(views(pieces@).take(pieces@.len() as int) =~= views(pieces@));
        }
        i += 1;
    }
    proof {
        assert(views(lists@).take(lists@.len() as int) =~= views(lists@));
        lemma_first_some_none(checks);
    }
    Ok(Some(codes))
}

} // verus!
