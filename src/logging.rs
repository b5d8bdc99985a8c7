use vstd::prelude::*;
use crate::headers::str_equal;

verus! {

/// One structured line of the worker's own diagnostics: a message and named
/// context values. The request's URL and method, the date and the level come
/// last, under names of their own.
pub struct FastlyLog {
    pub message: String,
    pub context: Vec<(String, String)>,
}

/// The names that every diagnostic line sets itself.
pub open spec fn is_reserved(key: Seq<char>) -> bool {
    key == "url"@ || key == "method"@ || key == "date"@ || key == "level"@
}

/// The entries of a context whose name is not reserved, in order.
pub open spec fn context_kept(ctx: Seq<(String, String)>) -> Seq<(String, String)>
    decreases ctx.len(),
{
    if ctx.len() == 0 {
        seq![]
    } else {
        let rest = context_kept(ctx.drop_last());
        if is_reserved(ctx.last().0@) {
            rest
        } else {
            rest.push(ctx.last())
        }
    }
}

fn reserved(key: &str) -> (r: bool)
    ensures
        r == is_reserved(key@),
{
    str_equal(key, "url") || str_equal(key, "method") || str_equal(key, "date") || str_equal(
        key,
        "level",
    )
}

impl FastlyLog {
    /// Builds a diagnostic line: the given context, if any, with the request's
    /// URL and method, the date and the level set on it.
    pub fn new(
        message: String,
        context: Option<Vec<(String, String)>>,
        url: String,
        method: String,
        date: String,
        level: String,
    ) -> (r: FastlyLog)
        ensures
            r.message == message,
            r.context@.len() >= 4,
            r.context@.subrange(0, r.context@.len() - 4) == context_kept(
                match context {
                    Some(c) => c@,
                    None => seq![],
                },
            ),
            ({
                let n = r.context@.len();
                &&& r.context@[n - 4].0@ == "url"@ && r.context@[n - 4].1 == url
                &&& r.context@[n - 3].0@ == "method"@ && r.context@[n - 3].1 == method
                &&& r.context@[n - 2].0@ == "date"@ && r.context@[n - 2].1 == date
                &&& r.context@[n - 1].0@ == "level"@ && r.context@[n - 1].1 == level
            }),
    {
        let given = match context {
            Some(c) => c,
            None => Vec::new(),
        };
        let mut ctx: Vec<(String, String)> = Vec::new();
        let mut i: usize = 0;
        while i < given.len()
            invariant
                i <= given@.len(),
                ctx@ == context_kept(given@.subrange(0, i as int)),
            decreases given@.len() - i,
        {
            assert(given@.subrange(0, i + 1).drop_last() =~= given@.subrange(0, i as int));
            if !reserved(given[i].0.as_str()) {
                ctx.push((given[i].0.clone(), given[i].1.clone()));
            }
            i = i + 1;
        }
        assert(given@.subrange(0, given@.len() as int) =~= given@);
        ctx.push((String::from_str("url"), url));
        ctx.push((String::from_str("method"), method));
        ctx.push((String::from_str("date"), date));
        ctx.push((String::from_str("level"), level));
        FastlyLog { message, context: ctx }
    }
}

/// How the worker's diagnostics are set up.
pub struct LoggerSettings {
    /// Whether diagnostics are also sent to a log endpoint.
    pub has_logger: bool,
    pub log_endpoint: String,
    /// The level asked for; `warn` where none is set.
    pub log_level: String,
}

impl LoggerSettings {
    /// The settings read from the store: diagnostics go to the endpoint only
    /// where one is set; the level defaults to `warn`.
    pub fn new(log_endpoint: Option<String>, log_level: Option<String>) -> (r: LoggerSettings)
        ensures
            r.has_logger == log_endpoint is Some,
            r.log_endpoint@ == (match log_endpoint {
                Some(e) => e@,
                None => ""@,
            }),
            r.log_level@ == (match log_level {
                Some(l) => l@,
                None => "warn"@,
            }),
    {
        let has_logger = log_endpoint.is_some();
        let log_endpoint = match log_endpoint {
            Some(e) => e,
            None => {
                proof {
                    reveal_strlit("");
                }
                let e = String::new();
                assert(e@ =~= ""@);
                e
            },
        };
        let log_level = match log_level {
            Some(l) => l,
            None => String::from_str("warn"),
        };
        LoggerSettings { has_logger, log_endpoint, log_level }
    }
}

} // verus!
