use vstd::prelude::*;
use crate::ids::SurveyIdGenerator;
use crate::sampling::sample;
use crate::{SurveyError, PASSAGE_AMOUNT, PICK_AMOUNT};

verus! {

/// One created survey: a freshly allocated ID paired with its item list.
pub struct Survey {
    pub survey_id: usize,
    pub survey_list: Vec<usize>,
}

impl Default for Survey {
    /// The sentinel survey the boundary reports on failure: ID zero, which
    /// the allocator never issues, and no items.
    fn default() -> (s: Survey)
        ensures
            s.survey_id == 0,
            s.survey_list@.len() == 0,
    {
        Survey { survey_id: 0, survey_list: Vec::new() }
    }
}

/// Serves one request: allocates a unique survey ID and samples the item
/// list. Fails exactly when the ID range is exhausted, and then leaves the
/// issued set unchanged; no partial success is possible.
pub fn create_survey(gen: &mut SurveyIdGenerator) -> (r: Result<Survey, SurveyError>)
    requires
        old(gen).wf(),
    ensures
        final(gen).wf(),
        final(gen).min_id() == old(gen).min_id(),
        final(gen).max_id() == old(gen).max_id(),
        match r {
            Ok(s) => {
                &&& old(gen).min_id() <= s.survey_id <= old(gen).max_id()
                &&& !old(gen).issued().contains(s.survey_id)
                &&& final(gen).issued() == old(gen).issued().insert(s.survey_id)
                &&& s.survey_list@.len() == PICK_AMOUNT
                &&& s.survey_list@.no_duplicates()
                &&& forall|i: int|
                    0 <= i < s.survey_list@.len()
                        ==> 1 <= #[trigger] s.survey_list@[i] <= PASSAGE_AMOUNT
            },
            Err(e) => {
                &&& e == SurveyError::ExhaustedRange
                &&& final(gen).issued() == old(gen).issued()
                &&& forall|id: usize|
                    old(gen).min_id() <= id <= old(gen).max_id()
                        ==> old(gen).issued().contains(id)
            },
        },
{
    let id: usize = match gen.generate() {
        Ok(id) => id,
        Err(e) => {
            return Err(e);
        },
    };
    let list: Vec<usize> = match sample(PASSAGE_AMOUNT, PICK_AMOUNT) {
        Ok(list) => list,
        Err(e) => {
            return Err(e);
        },
    };
    Ok(Survey { survey_id: id, survey_list: list })
}

} // verus!
