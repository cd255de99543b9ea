//! Log records and the engine's logging sink.
//!
//! A `LogMsg` carries a severity tag and a message text. The engine's own
//! sink, `Log`, records every emitted message in order; the embedding shell
//! drains those records and prints them through whatever platform facility it
//! has (an OS log call natively, the console in a browser).

use vstd::prelude::*;

verus! {

/// The mathematical shape of a log record: a severity tag and the carried
/// text as a sequence of characters.
pub enum LogMsgView {
    Info(Seq<char>),
    Warn(Seq<char>),
    Alert(Seq<char>),
    Error(Seq<char>),
}

impl LogMsgView {
    /// The text the record carries, without its severity tag.
    pub open spec fn inner_text(self) -> Seq<char> {
        match self {
            LogMsgView::Info(t) => t,
            LogMsgView::Warn(t) => t,
            LogMsgView::Alert(t) => t,
            LogMsgView::Error(t) => t,
        }
    }

    /// The rendered form of the record: the severity name, a colon, and the
    /// carried text.
    pub open spec fn rendered(self) -> Seq<char> {
        match self {
            LogMsgView::Info(t) => "info:"@ + t,
            LogMsgView::Warn(t) => "warn:"@ + t,
            LogMsgView::Alert(t) => "alert:"@ + t,
            LogMsgView::Error(t) => "error:"@ + t,
        }
    }
}

/// A log record: a severity tag and a message text.
#[derive(Debug)]
pub enum LogMsg {
    Info(String),
    Warn(String),
    Alert(String),
    Error(String),
}

impl View for LogMsg {
    type V = LogMsgView;

    open spec fn view(&self) -> LogMsgView {
        match self {
            LogMsg::Info(t) => LogMsgView::Info(t@),
            LogMsg::Warn(t) => LogMsgView::Warn(t@),
            LogMsg::Alert(t) => LogMsgView::Alert(t@),
            LogMsg::Error(t) => LogMsgView::Error(t@),
        }
    }
}

impl DeepView for LogMsg {
    type V = LogMsgView;

    open spec fn deep_view(&self) -> LogMsgView {
        self@
    }
}

impl Clone for LogMsg {
    fn clone(&self) -> (r: Self)
        ensures
            r@ == self@,
    {
        match self {
            LogMsg::Info(t) => LogMsg::Info(t.clone()),
            LogMsg::Warn(t) => LogMsg::Warn(t.clone()),
            LogMsg::Alert(t) => LogMsg::Alert(t.clone()),
            LogMsg::Error(t) => LogMsg::Error(t.clone()),
        }
    }
}

impl LogMsg {
    /// The record rendered for a sink: the severity name prefixes the text.
    pub fn get_msg(&self) -> (r: String)
        ensures
            r@ == self@.rendered(),
    {
        match self {
            LogMsg::Info(t) => String::from_str("info:").concat(t.as_str()),
            LogMsg::Warn(t) => String::from_str("warn:").concat(t.as_str()),
            LogMsg::Alert(t) => String::from_str("alert:").concat(t.as_str()),
            LogMsg::Error(t) => String::from_str("error:").concat(t.as_str()),
        }
    }

    /// The carried text alone, without the severity tag.
    pub fn get_inner(&self) -> (r: String)
        ensures
            r@ == self@.inner_text(),
    {
        match self {
            LogMsg::Info(t) => t.clone(),
            LogMsg::Warn(t) => t.clone(),
            LogMsg::Alert(t) => t.clone(),
            LogMsg::Error(t) => t.clone(),
        }
    }
}

/// A capability-set interface over logging sinks: the engine only ever
/// appends records, and a sink's contract says exactly which record each
/// call appends.
pub trait Logger: Sized {
    /// The records the sink has received, in order of emission.
    spec fn records(&self) -> Seq<LogMsgView>;

    fn info(&mut self, log: &str)
        ensures
            final(self).records() == old(self).records().push(LogMsgView::Info(log@)),
    ;

    fn warn(&mut self, log: &str)
        ensures
            final(self).records() == old(self).records().push(LogMsgView::Warn(log@)),
    ;

    fn error(&mut self, log: &str)
        ensures
            final(self).records() == old(self).records().push(LogMsgView::Error(log@)),
    ;

    fn alert(&mut self, log: &str)
        ensures
            final(self).records() == old(self).records().push(LogMsgView::Alert(log@)),
    ;

    fn log(&mut self, log: &LogMsg)
        ensures
            final(self).records() == old(self).records().push(log@),
    ;
}

/// The engine's recording sink: it keeps every emitted record in order, for
/// the embedding shell to drain and print.
pub struct Log {
    pub entries: Vec<LogMsg>,
}

impl View for Log {
    type V = Seq<LogMsgView>;

    open spec fn view(&self) -> Seq<LogMsgView> {
        self.entries.deep_view()
    }
}

impl Logger for Log {
    open spec fn records(&self) -> Seq<LogMsgView> {
        self@
    }

    fn info(&mut self, log: &str)
        ensures
            final(self).records() == old(self).records().push(LogMsgView::Info(log@)),
    {
        self.entries.push(LogMsg::Info(log.to_owned()));
        proof {
            assert(self.entries.deep_view() =~= old(self).entries.deep_view().push(
                LogMsgView::Info(log@),
            ));
        }
    }

    fn warn(&mut self, log: &str)
        ensures
            final(self).records() == old(self).records().push(LogMsgView::Warn(log@)),
    {
        self.entries.push(LogMsg::Warn(log.to_owned()));
        proof {
            assert(self.entries.deep_view() =~= old(self).entries.deep_view().push(
                LogMsgView::Warn(log@),
            ));
        }
    }

    fn error(&mut self, log: &str)
        ensures
            final(self).records() == old(self).records().push(LogMsgView::Error(log@)),
    {
        self.entries.push(LogMsg::Error(log.to_owned()));
        proof {
            assert(self.entries.deep_view() =~= old(self).entries.deep_view().push(
                LogMsgView::Error(log@),
            ));
        }
    }

    fn alert(&mut self, log: &str)
        ensures
            final(self).records() == old(self).records().push(LogMsgView::Alert(log@)),
    {
        self.entries.push(LogMsg::Alert(log.to_owned()));
        proof {
            assert(self.entries.deep_view() =~= old(self).entries.deep_view().push(
                LogMsgView::Alert(log@),
            ));
        }
    }

    fn log(&mut self, log: &LogMsg)
        ensures
            final(self).records() == old(self).records().push(log@),
    {
        self.entries.push(log.clone());
        proof {
            assert(self.entries.deep_view() =~= old(self).entries.deep_view().push(log@));
        }
    }
}

/// A fresh default sink with no records yet.
#[allow(non_snake_case)]
pub fn NewDefaultLogger() -> (r: Log)
    ensures
        r@ == Seq::<LogMsgView>::empty(),
{
    let r = Log { entries: Vec::new() };
    proof {
        assert(r.entries.deep_view() =~= Seq::<LogMsgView>::empty());
    }
    r
}

} // verus!
