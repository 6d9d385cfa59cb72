use vstd::prelude::*;

use crate::error::ApiError;
use crate::model::UpstreamFailure;
use crate::purl::{lacks_scheme, parse, parsed_purl};

verus! {

/// A batch of package URLs worked through strictly in order, one
/// collaborator query per URL. The first URL that does not parse stops the
/// batch with an error naming it, and so does the first failed query (with
/// an internal error); nothing after the stop is ever queried.
pub struct PurlBatch<T> {
    /// The requested package URLs, in order.
    pub purls: Vec<String>,
    /// The answers for the leading URLs, one for each.
    pub answers: Vec<T>,
    /// Why the batch stopped early, if it did.
    pub failure: Option<ApiError>,
}

impl<T> PurlBatch<T> {
    pub open spec fn wf(&self) -> bool {
        &&& self.answers@.len() <= self.purls@.len()
        &&& forall|i: int| 0 <= i < self.answers@.len() ==> (#[trigger] parsed_purl(self.purls@[i]@)) is Some
    }

    /// Nothing is left to ask: the batch stopped, or every URL was answered.
    pub open spec fn finished(&self) -> bool {
        self.failure is Some || self.answers@.len() == self.purls@.len()
    }

    /// The batch waits for the answer on its next URL.
    pub open spec fn awaiting(&self) -> bool {
        &&& self.failure is None
        &&& self.answers@.len() < self.purls@.len()
        &&& parsed_purl(self.purls@[self.answers@.len() as int]@) is Some
    }

    pub fn new(purls: Vec<String>) -> (r: Self)
        ensures
            r.wf(),
            r.purls == purls,
            r.answers@ == Seq::<T>::empty(),
            r.failure is None,
    {
        PurlBatch { purls, answers: Vec::new(), failure: None }
    }

    /// The next URL to ask the collaborator about, or `None` when nothing is
    /// left to ask. A next URL that does not parse stops the batch here.
    pub fn next_query(&mut self) -> (r: Option<String>)
        requires
            old(self).wf(),
        ensures
            final(self).wf(),
            final(self).purls == old(self).purls,
            final(self).answers == old(self).answers,
            old(self).finished() ==> r is None && final(self).failure == old(self).failure,
            !old(self).finished() ==> {
                let p = old(self).purls@[old(self).answers@.len() as int];
                if parsed_purl(p@) is Some {
                    &&& r == Some(p)
                    &&& final(self).failure is None
                    &&& final(self).awaiting()
                } else {
                    &&& r is None
                    &&& final(self).failure matches Some(e)
                    &&& e matches ApiError::InvalidPackageUrl { purl }
                    &&& purl@ == p@
                }
            },
            !old(self).finished() && lacks_scheme(old(self).purls@[old(self).answers@.len() as int]@)
                ==> {
                &&& r is None
                &&& final(self).failure matches Some(e)
                &&& e matches ApiError::InvalidPackageUrl { purl }
                &&& purl@ == old(self).purls@[old(self).answers@.len() as int]@
            },
    {
        if self.failure.is_some() || self.answers.len() == self.purls.len() {
            return None;
        }
        let k = self.answers.len();
        let p = self.purls[k].clone();
        match parse(p.as_str()) {
            Ok(_) => Some(p),
            Err(e) => {
                self.failure = Some(e);
                None
            },
        }
    }

    /// Records the collaborator's answer on the URL last handed out. A failed
    /// answer stops the batch with an internal error.
    pub fn deliver(&mut self, answer: Result<T, UpstreamFailure>)
        requires
            old(self).wf(),
            old(self).awaiting(),
        ensures
            final(self).wf(),
            final(self).purls == old(self).purls,
            answer matches Ok(v) ==> {
                &&& final(self).answers@ == old(self).answers@.push(v)
                &&& final(self).failure is None
            },
            answer is Err ==> {
                &&& final(self).answers == old(self).answers
                &&& final(self).failure == Some(ApiError::InternalError)
            },
    {
        match answer {
            Ok(v) => {
                self.answers.push(v);
            },
            Err(_) => {
                self.failure = Some(ApiError::InternalError);
            },
        }
    }

    /// The result of a batch that keeps every answer: all of them, in order,
    /// or the error that stopped it.
    pub fn finish(self) -> (r: Result<Vec<T>, ApiError>)
        requires
            self.finished(),
        ensures
            self.failure matches Some(e) ==> r == Err::<Vec<T>, ApiError>(e),
            self.failure is None ==> r == Ok::<Vec<T>, ApiError>(self.answers),
    {
        match self.failure {
            Some(e) => Err(e),
            None => Ok(self.answers),
        }
    }
}

impl<T> PurlBatch<Vec<T>> {
    /// The result of a batch in which each answer replaces the one before:
    /// the answer on the last URL (empty where no URL was given), or the
    /// error that stopped it.
    pub fn finish_last(self) -> (r: Result<Vec<T>, ApiError>)
        requires
            self.finished(),
        ensures
            self.failure matches Some(e) ==> r == Err::<Vec<T>, ApiError>(e),
            self.failure is None && self.answers@.len() == 0 ==> (r matches Ok(v) && v@.len() == 0),
            self.failure is None && self.answers@.len() > 0 ==> r == Ok::<Vec<T>, ApiError>(
                self.answers@.last(),
            ),
    {
        match self.failure {
            Some(e) => Err(e),
            None => {
                let mut answers = self.answers;
                match answers.pop() {
                    Some(last) => Ok(last),
                    None => Ok(Vec::new()),
                }
            },
        }
    }
}

}
