//! The telemetry runtime's decisions: whether the reporting SDK starts,
//! what each reporting entry point sends or stores, and what a user's
//! one-off upload authorisation needs.

use vstd::prelude::*;
use crate::telemetry::{
    EventClass, PendingRecord, TelemetryContext, anonymize_from, anonymize_text, event_class,
    safe_try_message, safe_try_record, spec_event_class, store_pending_report,
};
use vstd::string::StringSliceAdditionalSpecFns;

verus! {

/// The reporting endpoint, when one was configured and is not empty.
pub fn dsn(raw: Option<&str>) -> (r: Option<&str>)
    ensures
        match raw {
            Some(s) => if s@.len() > 0 { r == Some(s) } else { r is None },
            None => r is None,
        },
{
    match raw {
        Some(s) => if s.unicode_len() > 0 { Some(s) } else { None },
        None => None,
    }
}

/// The environment name of the build: `development` for debug builds,
/// `production` otherwise.
pub fn environment(debug_build: bool) -> (s: &'static str)
    ensures
        debug_build ==> s@ == "development"@,
        !debug_build ==> s@ == "production"@,
{
    proof {
        reveal_strlit("development");
        reveal_strlit("production");
    }
    if debug_build { "development" } else { "production" }
}

/// An event for the reporting SDK: its tags and message.
#[derive(Debug)]
pub struct ReportEvent {
    /// Tag names and values, in the order they are set.
    pub tags: Vec<(String, String)>,
    /// The event message.
    pub message: String,
}

/// The view of an event's tags.
pub open spec fn tags_view(tags: Seq<(String, String)>) -> Seq<(Seq<char>, Seq<char>)> {
    tags.map_values(|t: (String, String)| (t.0@, t.1@))
}

fn push_tag(tags: &mut Vec<(String, String)>, name: &str, value: &str)
    ensures
        tags_view(final(tags)@) == tags_view(old(tags)@).push((name@, value@)),
{
    tags.push((name.to_owned(), value.to_owned()));
    proof {
        assert(tags_view(tags@) =~= tags_view(old(tags)@).push((name@, value@)));
    }
}

/// The event-type tag of a class.
pub open spec fn class_type(c: EventClass) -> Seq<char> {
    match c {
        EventClass::Crash => "crash"@,
        EventClass::Startup => "startup"@,
        EventClass::Error => "error"@,
    }
}

/// The priority tag of a class.
pub open spec fn class_priority(c: EventClass) -> Seq<char> {
    match c {
        EventClass::Crash => "p1"@,
        EventClass::Startup => "p3"@,
        EventClass::Error => "p2"@,
    }
}

/// What the error exit of a guarded call does.
#[derive(Debug)]
pub enum SafeTryReport {
    /// Send this event (the SDK is active).
    Send(ReportEvent),
    /// Store this record (the SDK is inactive, a context exists).
    Store(PendingRecord),
    /// Nothing (no SDK and no context).
    Drop,
}

/// The telemetry runtime state: the context set up at start and whether
/// the reporting SDK is active.
#[derive(Debug)]
pub struct Telemetry {
    /// Data directory and install id, once initialised.
    pub context: Option<TelemetryContext>,
    /// Whether the reporting SDK is active.
    pub active: bool,
}

/// `telemetry SDK not active`.
pub open spec fn sdk_inactive_message() -> Seq<char> {
    "telemetry SDK not active"@
}

/// `telemetry DSN not injected; cannot upload`.
pub open spec fn no_dsn_message() -> Seq<char> {
    "telemetry DSN not injected; cannot upload"@
}

/// What a one-off upload authorisation does.
#[derive(Debug)]
pub struct UploadAuthorisation {
    /// The record of the current error, to be stored with the history
    /// first, whatever follows.
    pub record: PendingRecord,
    /// How the upload goes: whether the SDK is started for this upload only
    /// and shut down after (`Ok`), or the refusal for want of an endpoint
    /// (`Err`), in which case the record stays stored.
    pub upload: Result<bool, String>,
}

impl Telemetry {
    /// No context and no SDK.
    pub fn new() -> (t: Self)
        ensures
            t.context is None,
            !t.active,
    {
        Telemetry { context: None, active: false }
    }

    /// Sets up the context and decides whether the SDK starts: only with a
    /// reporting endpoint and telemetry enabled by the user. Returns whether
    /// it is active.
    pub fn init(&mut self, app_data_dir: String, install_id: String, dsn: Option<&str>, telemetry_enabled: bool) -> (b: bool)
        ensures
            final(self).context matches Some(c) && c.app_data_dir@ == app_data_dir@ && c.install_id@
                == install_id@,
            b == (dsn is Some && dsn->0@.len() > 0 && telemetry_enabled),
            final(self).active == (old(self).active || b),
    {
        self.context = Some(TelemetryContext { app_data_dir, install_id });
        let ready = match dsn {
            Some(d) => d.unicode_len() > 0,
            None => false,
        };
        if !ready || !telemetry_enabled {
            return false;
        }
        self.active = true;
        true
    }

    /// Whether the SDK is active.
    pub fn sdk_active(&self) -> (b: bool)
        ensures
            b == self.active,
    {
        self.active
    }

    /// Replaces the context (used by tests; the SDK is not touched).
    pub fn set_test_context(&mut self, app_data_dir: String, install_id: &str)
        ensures
            final(self).context matches Some(c) && c.app_data_dir@ == app_data_dir@ && c.install_id@
                == install_id@,
            final(self).active == old(self).active,
    {
        self.context = Some(TelemetryContext { app_data_dir, install_id: install_id.to_owned() });
    }

    /// The startup statistics event, sent only while the SDK is active:
    /// code `PGR-0001`, type `startup`, priority `p3`, the install id (empty
    /// without a context), the version, the OS and the architecture.
    pub fn report_startup(&self, version: &str, os: &str, arch: &str) -> (r: Option<ReportEvent>)
        ensures
            r is Some <==> self.active,
            r is Some ==> {
                &&& tags_view(r->0.tags@) == seq![
                    ("code"@, "PGR-0001"@),
                    ("event_type"@, "startup"@),
                    ("priority"@, "p3"@),
                    ("install_id"@, match self.context {
                        Some(c) => c.install_id@,
                        None => Seq::<char>::empty(),
                    }),
                    ("version"@, version@),
                    ("os"@, os@),
                    ("arch"@, arch@),
                ]
                &&& r->0.message@ == "app_startup"@
            },
    {
        if !self.active {
            return None;
        }
        proof {
            reveal_strlit("code");
            reveal_strlit("PGR-0001");
            reveal_strlit("event_type");
            reveal_strlit("startup");
            reveal_strlit("priority");
            reveal_strlit("p3");
            reveal_strlit("install_id");
            reveal_strlit("version");
            reveal_strlit("os");
            reveal_strlit("arch");
            reveal_strlit("app_startup");
        }
        let empty = String::new();
        let id = match &self.context {
            Some(c) => c.install_id.as_str(),
            None => empty.as_str(),
        };
        let mut tags: Vec<(String, String)> = Vec::new();
        push_tag(&mut tags, "code", "PGR-0001");
        push_tag(&mut tags, "event_type", "startup");
        push_tag(&mut tags, "priority", "p3");
        push_tag(&mut tags, "install_id", id);
        push_tag(&mut tags, "version", version);
        push_tag(&mut tags, "os", os);
        push_tag(&mut tags, "arch", arch);
        proof {
            assert(tags_view(tags@) =~= seq![
                ("code"@, "PGR-0001"@),
                ("event_type"@, "startup"@),
                ("priority"@, "p3"@),
                ("install_id"@, id@),
                ("version"@, version@),
                ("os"@, os@),
                ("arch"@, arch@),
            ]);
        }
        Some(ReportEvent { tags, message: "app_startup".to_owned() })
    }

    /// The error exit of a guarded call: while the SDK is active, an event
    /// with the code, type `error`, priority `p2`, the function and the
    /// location, carrying the anonymised message; otherwise, with a
    /// context, the record `[<function> @ <location>] <anonymised message>`;
    /// otherwise nothing.
    pub fn report_safe_try_error(
        &self,
        ts: u64,
        version: &str,
        code: &str,
        function: &str,
        location: &str,
        message: &str,
    ) -> (r: SafeTryReport)
        ensures
            self.active ==> (r matches SafeTryReport::Send(e) && {
                &&& tags_view(e.tags@) == seq![
                    ("code"@, code@),
                    ("event_type"@, "error"@),
                    ("priority"@, "p2"@),
                    ("function"@, function@),
                    ("location"@, location@),
                ]
                &&& e.message@ == anonymize_from(message@, 0)
            }),
            !self.active && self.context is Some ==> (r matches SafeTryReport::Store(rec) && {
                &&& rec.ts == ts
                &&& rec.version@ == version@
                &&& rec.install_id@ == self.context->0.install_id@
                &&& rec.code@ == code@
                &&& rec.message@ == safe_try_message(
                    function@,
                    location@,
                    anonymize_from(message@, 0),
                )
            }),
            !self.active && self.context is None ==> r is Drop,
    {
        if self.active {
            proof {
                reveal_strlit("code");
                reveal_strlit("event_type");
                reveal_strlit("error");
                reveal_strlit("priority");
                reveal_strlit("p2");
                reveal_strlit("function");
                reveal_strlit("location");
            }
            let mut tags: Vec<(String, String)> = Vec::new();
            push_tag(&mut tags, "code", code);
            push_tag(&mut tags, "event_type", "error");
            push_tag(&mut tags, "priority", "p2");
            push_tag(&mut tags, "function", function);
            push_tag(&mut tags, "location", location);
            proof {
                assert(tags_view(tags@) =~= seq![
                    ("code"@, code@),
                    ("event_type"@, "error"@),
                    ("priority"@, "p2"@),
                    ("function"@, function@),
                    ("location"@, location@),
                ]);
            }
            return SafeTryReport::Send(ReportEvent { tags, message: anonymize_text(message) });
        }
        match safe_try_record(&self.context, ts, version, code, function, location, message) {
            Some(rec) => SafeTryReport::Store(rec),
            None => SafeTryReport::Drop,
        }
    }

    /// The developer test report: an error while the SDK is inactive;
    /// otherwise the event with code `PGR-0901`, type `error`, priority
    /// `p2` and the function `test_report`.
    pub fn test_report(&self) -> (r: Result<ReportEvent, String>)
        ensures
            r is Err <==> !self.active,
            r is Err ==> r->Err_0@ == sdk_inactive_message(),
            r is Ok ==> {
                &&& tags_view(r->Ok_0.tags@) == seq![
                    ("code"@, "PGR-0901"@),
                    ("event_type"@, "error"@),
                    ("priority"@, "p2"@),
                    ("function"@, "test_report"@),
                ]
                &&& r->Ok_0.message@ == "peregrine telemetry test report"@
            },
    {
        proof {
            reveal_strlit("telemetry SDK not active");
        }
        if !self.active {
            return Err("telemetry SDK not active".to_owned());
        }
        proof {
            reveal_strlit("code");
            reveal_strlit("PGR-0901");
            reveal_strlit("event_type");
            reveal_strlit("error");
            reveal_strlit("priority");
            reveal_strlit("p2");
            reveal_strlit("function");
            reveal_strlit("test_report");
            reveal_strlit("peregrine telemetry test report");
        }
        let mut tags: Vec<(String, String)> = Vec::new();
        push_tag(&mut tags, "code", "PGR-0901");
        push_tag(&mut tags, "event_type", "error");
        push_tag(&mut tags, "priority", "p2");
        push_tag(&mut tags, "function", "test_report");
        proof {
            assert(tags_view(tags@) =~= seq![
                ("code"@, "PGR-0901"@),
                ("event_type"@, "error"@),
                ("priority"@, "p2"@),
                ("function"@, "test_report"@),
            ]);
        }
        Ok(ReportEvent { tags, message: "peregrine telemetry test report".to_owned() })
    }

    /// A one-off authorisation to upload everything: an error without a
    /// context; otherwise the current error's record, which is stored
    /// first in every case, and then how the upload goes: the SDK if
    /// active, else one started for this upload when an endpoint exists,
    /// else a refusal.
    pub fn authorize_upload_all(&self, ts: u64, version: &str, code: &str, message: &str, dsn: Option<&str>) -> (r: Result<UploadAuthorisation, String>)
        ensures
            self.context is None <==> r is Err,
            r is Err ==> r->Err_0@ == crate::telemetry::context_missing_message(),
            r is Ok ==> {
                &&& r->Ok_0.record.ts == ts
                &&& r->Ok_0.record.version@ == version@
                &&& r->Ok_0.record.install_id@ == self.context->0.install_id@
                &&& r->Ok_0.record.code@ == code@
                &&& r->Ok_0.record.message@ == anonymize_from(message@, 0)
                &&& if self.active {
                    r->Ok_0.upload == Ok::<bool, String>(false)
                } else if dsn is Some && dsn->0@.len() > 0 {
                    r->Ok_0.upload == Ok::<bool, String>(true)
                } else {
                    r->Ok_0.upload matches Err(m) && m@ == no_dsn_message()
                }
            },
    {
        let record = match store_pending_report(&self.context, ts, version, code, message) {
            Ok(rec) => rec,
            Err(e) => {
                return Err(e);
            },
        };
        if self.active {
            return Ok(UploadAuthorisation { record, upload: Ok(false) });
        }
        let ready = match dsn {
            Some(d) => d.unicode_len() > 0,
            None => false,
        };
        if !ready {
            proof {
                reveal_strlit("telemetry DSN not injected; cannot upload");
            }
            return Ok(UploadAuthorisation { record, upload: Err("telemetry DSN not injected; cannot upload".to_owned()) });
        }
        Ok(UploadAuthorisation { record, upload: Ok(true) })
    }
}

/// The events that uploading the pending history sends, one per record in
/// order: the record's code, the type and priority of its class, its
/// install id and version, carrying its message.
pub fn upload_events(records: &Vec<(String, PendingRecord)>) -> (r: Vec<ReportEvent>)
    ensures
        r@.len() == records@.len(),
        forall|i: int| 0 <= i < records@.len() ==> {
            let rec = #[trigger] records@[i].1;
            &&& tags_view(r@[i].tags@) == seq![
                ("code"@, rec.code@),
                ("event_type"@, class_type(spec_event_class(rec.code@))),
                ("priority"@, class_priority(spec_event_class(rec.code@))),
                ("install_id"@, rec.install_id@),
                ("version"@, rec.version@),
            ]
            &&& r@[i].message@ == rec.message@
        },
{
    proof {
        reveal_strlit("code");
        reveal_strlit("event_type");
        reveal_strlit("priority");
        reveal_strlit("install_id");
        reveal_strlit("version");
        reveal_strlit("crash");
        reveal_strlit("startup");
        reveal_strlit("error");
        reveal_strlit("p1");
        reveal_strlit("p2");
        reveal_strlit("p3");
    }
    let mut out: Vec<ReportEvent> = Vec::new();
    let mut i: usize = 0;
    while i < records.len()
        invariant
            0 <= i <= records@.len(),
            out@.len() == i,
            forall|k: int| 0 <= k < i ==> {
                let rec = #[trigger] records@[k].1;
                &&& tags_view(out@[k].tags@) == seq![
                    ("code"@, rec.code@),
                    ("event_type"@, class_type(spec_event_class(rec.code@))),
                    ("priority"@, class_priority(spec_event_class(rec.code@))),
                    ("install_id"@, rec.install_id@),
                    ("version"@, rec.version@),
                ]
                &&& out@[k].message@ == rec.message@
            },
        decreases records@.len() - i,
    {
        let rec = &records[i].1;
        let class = event_class(rec.code.as_str());
        let mut tags: Vec<(String, String)> = Vec::new();
        push_tag(&mut tags, "code", rec.code.as_str());
        push_tag(&mut tags, "event_type", class.event_type());
        push_tag(&mut tags, "priority", class.priority());
        push_tag(&mut tags, "install_id", rec.install_id.as_str());
        push_tag(&mut tags, "version", rec.version.as_str());
        proof {
            assert(tags_view(tags@) =~= seq![
                ("code"@, rec.code@),
                ("event_type"@, class_type(spec_event_class(rec.code@))),
                ("priority"@, class_priority(spec_event_class(rec.code@))),
                ("install_id"@, rec.install_id@),
                ("version"@, rec.version@),
            ]);
        }
        out.push(ReportEvent { tags, message: rec.message.clone() });
        i = i + 1;
    }
    out
}

} // verus!
