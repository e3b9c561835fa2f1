//! The lookup tab: fetching the transform list, looking one transform up
//! together with the robot's telemetry, and showing what came of it.

use crate::export::{
    document_model, export_document, export_file_name, file_name_model, ExportDocument,
};
use crate::keys::{names, retain_selection, retained, sorted_keys, strictly_increasing, text_of};
use crate::slot::{thread_name, PollState, PromiseSlot};
use crate::telemetry::{LookupResult, TelemetrySnapshot};
use crate::text::joined;
use vstd::prelude::*;
use vstd::string::*;

verus! {

/// Why a lookup has nothing to show.
#[derive(Debug, PartialEq, Eq)]
pub enum LookupError {
    /// The backend did not deliver: no data was had.
    Backend(String),
    /// Data was had but could not be rendered.
    Serialization(String),
}

impl LookupError {
    /// The text under which the error is shown.
    pub open spec fn text(self) -> Seq<char> {
        match self {
            LookupError::Backend(cause) => cause@,
            LookupError::Serialization(cause) => "JSON serialization error: "@ + cause@,
        }
    }

    pub fn to_string(&self) -> (shown: String)
        ensures
            shown@ == self.text(),
    {
        match self {
            LookupError::Backend(cause) => cause.clone(),
            LookupError::Serialization(cause) => joined(
                "JSON serialization error: ",
                cause.as_str(),
            ),
        }
    }
}

/// What a lookup is made for.
#[derive(Debug, PartialEq, Eq)]
pub struct LookupRequest {
    pub robot_id: String,
    pub parent: String,
    pub child: String,
}

impl LookupRequest {
    /// A second copy of the request.
    pub fn duplicate(&self) -> (copy: LookupRequest)
        ensures
            copy == *self,
    {
        LookupRequest {
            robot_id: self.robot_id.clone(),
            parent: self.parent.clone(),
            child: self.child.clone(),
        }
    }
}

/// The frames that the document of a lookup names: those that the lookup
/// was started for, whatever is selected by the time its result comes in.
/// Where the tab has no lookup on record they are the frames that the
/// backend's record names.
pub open spec fn lookup_frames(
    in_flight: Option<LookupRequest>,
    snapshot: TelemetrySnapshot,
) -> (Seq<char>, Seq<char>) {
    match in_flight {
        Some(request) => (request.parent@, request.child@),
        None => (snapshot.transform.parent_frame@, snapshot.transform.child_frame@),
    }
}

/// What the output area of the tab shows.
#[derive(Clone, Copy, Debug, PartialEq, Eq, Structural)]
pub enum OutputKind {
    /// The text of an error.
    Error,
    /// The rendered document of the last lookup.
    Document,
    /// A note that the result will appear here.
    Placeholder,
}

/// State of the lookup tab.
pub struct LookupTab {
    pub robot_id_input: String,
    pub get_all_transforms_promise: PromiseSlot<Vec<String>>,
    pub transform_keys: Vec<String>,
    pub parent: Option<String>,
    pub child: Option<String>,
    pub lookup_promise: PromiseSlot<LookupResult>,
    /// What the lookup in flight was started for.
    pub lookup_in_flight: Option<LookupRequest>,
    /// The document of the last lookup that succeeded, and its rendering.
    pub lookup_output: Option<(ExportDocument, String)>,
    pub lookup_error: Option<LookupError>,
}

impl LookupTab {
    /// The tab as it opens: robot `r1`, nothing listed, selected, in flight
    /// or shown.
    pub fn new() -> (tab: Self)
        ensures
            tab.robot_id_input@ == "r1"@,
            !tab.get_all_transforms_promise.is_pending(),
            tab.transform_keys@.len() == 0,
            tab.parent is None,
            tab.child is None,
            !tab.lookup_promise.is_pending(),
            tab.lookup_in_flight is None,
            tab.lookup_output is None,
            tab.lookup_error is None,
            tab.well_formed(),
    {
        LookupTab {
            robot_id_input: String::from_str("r1"),
            get_all_transforms_promise: PromiseSlot::new(),
            transform_keys: Vec::new(),
            parent: None,
            child: None,
            lookup_promise: PromiseSlot::new(),
            lookup_in_flight: None,
            lookup_output: None,
            lookup_error: None,
        }
    }

    /// The list of transforms is in display order: strictly increasing, so
    /// that no identifier is listed twice.
    pub open spec fn well_formed(self) -> bool {
        strictly_increasing(names(self.transform_keys@))
    }

    /// Whether `self` is `before` after a fetch that brought `fetched`: the
    /// list holds what was brought, each identifier once and in order; a
    /// selection that is still listed stands, one that is not is dropped;
    /// nothing else but the fetch slot differs.
    pub open spec fn lists(self, before: LookupTab, fetched: Seq<Seq<char>>) -> bool {
        &&& strictly_increasing(names(self.transform_keys@))
        &&& names(self.transform_keys@).no_duplicates()
        &&& forall|k: Seq<char>| names(self.transform_keys@).contains(k) <==> fetched.contains(k)
        &&& text_of(self.parent) == retained(text_of(before.parent), fetched)
        &&& text_of(self.child) == retained(text_of(before.child), fetched)
        &&& self == (LookupTab {
            get_all_transforms_promise: self.get_all_transforms_promise,
            transform_keys: self.transform_keys,
            parent: self.parent,
            child: self.child,
            ..before
        })
    }

    /// After a fetch the list is in display order without duplicates. A
    /// parent or child that the fetch did not bring is unselected, one that
    /// it brought is selected as before.
    pub proof fn lemma_fetch_invalidates(self, before: LookupTab, fetched: Seq<Seq<char>>)
        requires
            self.lists(before, fetched),
        ensures
            self.well_formed(),
            names(self.transform_keys@).no_duplicates(),
            before.parent matches Some(key) ==> if fetched.contains(key@) {
                text_of(self.parent) == Some(key@)
            } else {
                self.parent is None
            },
            before.child matches Some(key) ==> if fetched.contains(key@) {
                text_of(self.child) == Some(key@)
            } else {
                self.child is None
            },
            before.parent is None ==> self.parent is None,
            before.child is None ==> self.child is None,
    {
    }

    /// Takes in the identifiers that a fetch brought.
    pub fn process_transforms_result(&mut self, result: &Vec<String>)
        ensures
            final(self).lists(*old(self), names(result@)),
            final(self).get_all_transforms_promise == old(self).get_all_transforms_promise,
    {
        self.transform_keys = sorted_keys(result);
        let parent = self.parent.take();
        self.parent = retain_selection(parent, &self.transform_keys);
        let child = self.child.take();
        self.child = retain_selection(child, &self.transform_keys);
    }

    /// Checks on the fetch in flight and takes in its result once it is
    /// there. Tells whether the fetch is still in flight.
    pub fn poll_transforms_promise(&mut self) -> (pending: bool)
        ensures
            !old(self).get_all_transforms_promise.is_pending() ==> !pending && *final(self)
                == *old(self),
            old(self).get_all_transforms_promise.is_pending() ==> (pending && *final(self)
                == *old(self)) || (!pending && !final(self).get_all_transforms_promise.is_pending()
                && exists|fetched: Seq<Seq<char>>| final(self).lists(*old(self), fetched)),
    {
        match self.get_all_transforms_promise.poll() {
            PollState::Ready(fetched) => {
                self.process_transforms_result(&fetched);
                assert(self.lists(*old(self), names(fetched@)));
                false
            },
            PollState::Pending => true,
            PollState::Idle => false,
        }
    }

    /// Starts a fetch of the transform list, unless one is in flight.
    pub fn spawn_transforms_promise<F>(&mut self, fetch: F) -> (spawned: bool) where
        F: FnOnce() -> Vec<String> + Send + 'static,

        requires
            fetch.requires(()),
        ensures
            spawned == !old(self).get_all_transforms_promise.is_pending(),
            final(self).get_all_transforms_promise.is_pending(),
            !spawned ==> *final(self) == *old(self),
            *final(self) == (LookupTab {
                get_all_transforms_promise: final(self).get_all_transforms_promise,
                ..*old(self)
            }),
    {
        proof {
            reveal_strlit("fetcher");
            assert(thread_name("fetcher"@));
        }
        self.get_all_transforms_promise.spawn("fetcher", fetch)
    }

    /// Whether a lookup can be started: both frames are selected and no
    /// lookup is in flight.
    pub open spec fn can_lookup(self) -> bool {
        self.parent is Some && self.child is Some && !self.lookup_promise.is_pending()
    }

    /// Whether the lookup control is enabled.
    pub fn lookup_enabled(&self) -> (enabled: bool)
        ensures
            enabled == self.can_lookup(),
    {
        self.parent.is_some() && self.child.is_some() && !self.lookup_promise.pending()
    }

    /// What a lookup started now would be made for: the robot as entered and
    /// the two frames as selected. There is none unless both are selected.
    pub fn lookup_request(&self) -> (request: Option<LookupRequest>)
        ensures
            request is Some == (self.parent is Some && self.child is Some),
            request matches Some(r) ==> {
                &&& r.robot_id@ == self.robot_id_input@
                &&& Some(r.parent@) == text_of(self.parent)
                &&& Some(r.child@) == text_of(self.child)
            },
    {
        match (&self.parent, &self.child) {
            (Some(parent), Some(child)) => Some(
                LookupRequest {
                    robot_id: self.robot_id_input.clone(),
                    parent: parent.clone(),
                    child: child.clone(),
                },
            ),
            _ => None,
        }
    }

    /// Starts a lookup for the selected frames. While a lookup is in flight
    /// nothing happens. Else what the last lookup left on show is cleared,
    /// and the lookup starts if both frames are selected; what it was
    /// started for is kept on record until its result comes in.
    pub fn spawn_lookup_promise<F>(&mut self, fetch: F) -> (spawned: bool) where
        F: FnOnce(LookupRequest) -> LookupResult + Send + 'static,

        requires
            forall|request: LookupRequest| fetch.requires((request,)),
        ensures
            spawned == old(self).can_lookup(),
            old(self).lookup_promise.is_pending() ==> *final(self) == *old(self),
            !old(self).lookup_promise.is_pending() ==> {
                &&& final(self).lookup_output is None
                &&& final(self).lookup_error is None
                &&& final(self).lookup_promise.is_pending() == spawned
                &&& final(self).lookup_in_flight is Some == spawned
            },
            spawned ==> {
                &&& final(self).lookup_in_flight matches Some(request)
                &&& request.robot_id@ == old(self).robot_id_input@
                &&& Some(request.parent@) == text_of(old(self).parent)
                &&& Some(request.child@) == text_of(old(self).child)
            },
            *final(self) == (LookupTab {
                lookup_promise: final(self).lookup_promise,
                lookup_in_flight: final(self).lookup_in_flight,
                lookup_output: final(self).lookup_output,
                lookup_error: final(self).lookup_error,
                ..*old(self)
            }),
    {
        if self.lookup_promise.pending() {
            return false;
        }
        self.lookup_output = None;
        self.lookup_error = None;
        match self.lookup_request() {
            Some(request) => {
                self.lookup_in_flight = Some(request.duplicate());
                let work = move || -> (result: LookupResult)
                    requires
                        fetch.requires((request,)),
                    { fetch(request) };
                proof {
                    reveal_strlit("lookup_fetcher");
                    assert(thread_name("lookup_fetcher"@));
                }
                self.lookup_promise.spawn("lookup_fetcher", work)
            },
            None => {
                self.lookup_in_flight = None;
                false
            },
        }
    }

    /// Whether `self` is `before` after a lookup has ended in `result` and
    /// handed out `document`: a failure is on show as a backend error and
    /// hands out nothing; a snapshot hands out the document of the lookup,
    /// which names the frames that the lookup was started for, and leaves
    /// what is on show as it was. Either way no lookup is on record any
    /// more.
    pub open spec fn looked_up(
        self,
        before: LookupTab,
        result: LookupResult,
        document: Option<ExportDocument>,
    ) -> bool {
        &&& match result {
            Ok(snapshot) => {
                let frames = lookup_frames(before.lookup_in_flight, snapshot);
                &&& document matches Some(d)
                &&& d@ == document_model(frames.0, frames.1, snapshot)
                &&& self.lookup_error == before.lookup_error
            },
            Err(cause) => {
                &&& document is None
                &&& self.lookup_error == Some(LookupError::Backend(cause))
            },
        }
        &&& self.lookup_in_flight is None
        &&& self == (LookupTab {
            lookup_promise: self.lookup_promise,
            lookup_in_flight: self.lookup_in_flight,
            lookup_error: self.lookup_error,
            ..before
        })
    }

    /// The document of a lookup names the frames that the lookup was
    /// started for, as parent, as child and as tool centre point, whatever
    /// is selected when its result comes in.
    pub proof fn lemma_document_names_the_lookup(
        self,
        before: LookupTab,
        snapshot: TelemetrySnapshot,
        document: Option<ExportDocument>,
    )
        requires
            before.lookup_in_flight is Some,
            self.looked_up(before, Ok(snapshot), document),
        ensures
            document matches Some(d) && {
                &&& d@.parent_frame_id == before.lookup_in_flight->Some_0.parent@
                &&& d@.child_frame_id == before.lookup_in_flight->Some_0.child@
                &&& d@.metadata.tcp_id == before.lookup_in_flight->Some_0.child@
                &&& d@.transform == snapshot.transform.transform
            },
    {
    }

    /// Takes in what a lookup ended in. A failure is put on show as a
    /// backend error. A snapshot gives the document of the lookup, which is
    /// handed out to be rendered.
    pub fn absorb_lookup_result(&mut self, result: LookupResult) -> (document: Option<
        ExportDocument,
    >)
        ensures
            final(self).looked_up(*old(self), result, document),
            final(self).lookup_promise == old(self).lookup_promise,
    {
        let in_flight = self.lookup_in_flight.take();
        match result {
            Ok(snapshot) => {
                let document = match &in_flight {
                    Some(request) => export_document(
                        request.parent.as_str(),
                        request.child.as_str(),
                        &snapshot,
                    ),
                    None => export_document(
                        snapshot.transform.parent_frame.as_str(),
                        snapshot.transform.child_frame.as_str(),
                        &snapshot,
                    ),
                };
                Some(document)
            },
            Err(cause) => {
                self.lookup_error = Some(LookupError::Backend(cause));
                None
            },
        }
    }

    /// Checks on the lookup in flight. Once it has ended, its failure is put
    /// on show or its document is handed out to be rendered.
    pub fn poll_lookup_promise(&mut self) -> (document: Option<ExportDocument>)
        ensures
            !old(self).lookup_promise.is_pending() ==> document is None && *final(self) == *old(
                self,
            ),
            old(self).lookup_promise.is_pending() ==> (document is None && *final(self) == *old(
                self,
            )) || (!final(self).lookup_promise.is_pending() && exists|result: LookupResult|
                final(self).looked_up(*old(self), result, document)),
    {
        match self.lookup_promise.poll() {
            PollState::Ready(result) => {
                let document = self.absorb_lookup_result(result);
                assert(self.looked_up(*old(self), result, document));
                document
            },
            PollState::Pending => None,
            PollState::Idle => None,
        }
    }

    /// Takes in the rendering of a document: the rendered text is put on
    /// show beside the document, a failure to render as a serialization
    /// error.
    pub fn store_rendering(&mut self, document: ExportDocument, rendered: Result<String, String>)
        ensures
            match rendered {
                Ok(text) => {
                    &&& final(self).lookup_output == Some((document, text))
                    &&& final(self).lookup_error == old(self).lookup_error
                },
                Err(cause) => {
                    &&& final(self).lookup_output == old(self).lookup_output
                    &&& final(self).lookup_error == Some(LookupError::Serialization(cause))
                },
            },
            *final(self) == (LookupTab {
                lookup_output: final(self).lookup_output,
                lookup_error: final(self).lookup_error,
                ..*old(self)
            }),
    {
        match rendered {
            Ok(text) => {
                self.lookup_output = Some((document, text));
            },
            Err(cause) => {
                self.lookup_error = Some(LookupError::Serialization(cause));
            },
        }
    }

    /// What the output area shows: an error before anything else, then the
    /// document of the last lookup, else the placeholder.
    pub fn output_kind(&self) -> (kind: OutputKind)
        ensures
            kind == if self.lookup_error is Some {
                OutputKind::Error
            } else if self.lookup_output is Some {
                OutputKind::Document
            } else {
                OutputKind::Placeholder
            },
    {
        if self.lookup_error.is_some() {
            OutputKind::Error
        } else if self.lookup_output.is_some() {
            OutputKind::Document
        } else {
            OutputKind::Placeholder
        }
    }

    /// The file name proposed for saving the document on show, if there is
    /// one.
    pub fn save_file_name(&self) -> (name: Option<String>)
        ensures
            match self.lookup_output {
                Some((document, _)) => name matches Some(n) && n@ == file_name_model(document@),
                None => name is None,
            },
    {
        match &self.lookup_output {
            Some((document, _)) => Some(export_file_name(document)),
            None => None,
        }
    }
}

} // verus!
