use std::collections::HashSet;
use survey_gen::ids::SurveyIdGenerator;
use survey_gen::survey::{create_survey, Survey};
use survey_gen::SurveyError;

#[test]
fn created_survey_pairs_six_digit_id_with_five_items() {
    let mut gen = SurveyIdGenerator::new();
    let survey = create_survey(&mut gen).expect("fresh generator cannot be exhausted");
    assert!((100000..=999999).contains(&survey.survey_id));
    assert_eq!(survey.survey_list.len(), 5);
    let distinct: HashSet<usize> = survey.survey_list.iter().copied().collect();
    assert_eq!(distinct.len(), 5);
    for v in survey.survey_list {
        assert!((1..=10).contains(&v));
    }
}

#[test]
fn created_surveys_never_share_an_id() {
    let mut gen = SurveyIdGenerator::new();
    let mut seen: HashSet<usize> = HashSet::new();
    for _ in 0..50 {
        let survey = create_survey(&mut gen).expect("range is far from exhausted");
        assert!(seen.insert(survey.survey_id), "duplicate survey ID");
    }
}

#[test]
fn creation_fails_once_the_id_range_is_exhausted() {
    let mut gen = SurveyIdGenerator::with_range(41, 42);
    assert!(create_survey(&mut gen).is_ok());
    assert!(create_survey(&mut gen).is_ok());
    let err = create_survey(&mut gen);
    assert!(matches!(err, Err(SurveyError::ExhaustedRange)));
}

#[test]
fn default_survey_is_the_failure_sentinel() {
    let survey = Survey::default();
    assert_eq!(survey.survey_id, 0);
    assert!(survey.survey_list.is_empty());
}
