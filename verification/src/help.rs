//! Help & support: the questions and answers, searched by a text that may
//! occur in either, ignoring case.
use vstd::prelude::*;
use crate::text::{contains_seq, contains_str, lowercase, to_lowercase};

verus! {

/// A question and its answer.
#[derive(Debug, Clone)]
pub struct QuestionAndAnswer {
    pub question: String,
    pub answer: String,
}

impl QuestionAndAnswer {
    /// A copy of this question and answer.
    pub fn duplicate(&self) -> (q: Self)
        ensures
            q == *self,
    {
        QuestionAndAnswer { question: self.question.clone(), answer: self.answer.clone() }
    }
}

/// A question is found by a (lowercased) search text when its question or
/// its answer, lowercased, contains it.
pub open spec fn question_found(q: QuestionAndAnswer, needle: Seq<char>) -> bool {
    contains_seq(lowercase(q.question@), needle) || contains_seq(lowercase(q.answer@), needle)
}

/// The questions shown for a search text: all of them for an empty text,
/// else those found by the lowercased text, in their order.
pub open spec fn search_result(questions: Seq<QuestionAndAnswer>, search: Seq<char>) -> Seq<QuestionAndAnswer> {
    if search.len() == 0 {
        questions
    } else {
        questions.filter(|q: QuestionAndAnswer| question_found(q, lowercase(search)))
    }
}

/// Whether a question is found by a lowercased search text.
fn is_found(q: &QuestionAndAnswer, needle: &str) -> (b: bool)
    ensures
        b == question_found(*q, needle@),
{
    let ql = to_lowercase(q.question.as_str());
    if contains_str(ql.as_str(), needle) {
        return true;
    }
    let al = to_lowercase(q.answer.as_str());
    contains_str(al.as_str(), needle)
}

/// The questions found by a search text.
pub fn filter_questions(questions: &Vec<QuestionAndAnswer>, search: &str) -> (r: Vec<QuestionAndAnswer>)
    ensures
        r@ == search_result(questions@, search@),
{
    let mut r: Vec<QuestionAndAnswer> = Vec::new();
    if search.unicode_len() == 0 {
        let mut i: usize = 0;
        while i < questions.len()
            invariant
                i <= questions@.len(),
                r@ == questions@.subrange(0, i as int),
            decreases questions@.len() - i,
        {
            r.push(questions[i].duplicate());
            i = i + 1;
            assert(r@ =~= questions@.subrange(0, i as int));
        }
        assert(questions@.subrange(0, questions@.len() as int) =~= questions@);
        return r;
    }
    let needle = to_lowercase(search);
    let ghost pred = |q: QuestionAndAnswer| question_found(q, lowercase(search@));
    let mut i: usize = 0;
    assert(questions@.subrange(0, 0).filter(pred) =~= Seq::<QuestionAndAnswer>::empty()) by {
        reveal(Seq::filter);
    }
    while i < questions.len()
        invariant
            i <= questions@.len(),
            needle@ == lowercase(search@),
            pred == (|q: QuestionAndAnswer| question_found(q, lowercase(search@))),
            r@ == questions@.subrange(0, i as int).filter(pred),
        decreases questions@.len() - i,
    {
        let q = &questions[i];
        proof {
            questions@.subrange(0, i as int).lemma_filter_push(*q, pred);
            assert(questions@.subrange(0, i + 1) =~= questions@.subrange(0, i as int).push(*q));
        }
        if is_found(q, needle.as_str()) {
            r.push(q.duplicate());
        }
        i = i + 1;
    }
    assert(questions@.subrange(0, questions@.len() as int) =~= questions@);
    r
}

/// The screen of one question.
pub struct QuestionDetailState {
    pub question: QuestionAndAnswer,
}

/// State of the help & support screen.
pub struct HelpAndSupportState {
    questions: Vec<QuestionAndAnswer>,
    filtered_questions: Vec<QuestionAndAnswer>,
    search_text: String,
    selected_question: Option<QuestionAndAnswer>,
}

impl HelpAndSupportState {
    pub closed spec fn all(&self) -> Seq<QuestionAndAnswer> {
        self.questions@
    }

    pub closed spec fn shown(&self) -> Seq<QuestionAndAnswer> {
        self.filtered_questions@
    }

    pub closed spec fn search(&self) -> Seq<char> {
        self.search_text@
    }

    pub closed spec fn selected(&self) -> Option<QuestionAndAnswer> {
        self.selected_question
    }

    /// The screen for the given questions: no search, all shown, none open.
    pub fn new(questions: Vec<QuestionAndAnswer>) -> (s: Self)
        ensures
            s.all() == questions@,
            s.shown() == questions@,
            s.search() == Seq::<char>::empty(),
            s.selected() is None,
    {
        proof {
            reveal_strlit("");
        }
        let filtered = filter_questions(&questions, "");
        HelpAndSupportState {
            questions,
            filtered_questions: filtered,
            search_text: String::new(),
            selected_question: None,
        }
    }

    /// The search text typed.
    pub fn set_search_text(&mut self, text: String)
        ensures
            final(self).search() == text@,
            final(self).all() == old(self).all(),
            final(self).shown() == old(self).shown(),
            final(self).selected() == old(self).selected(),
    {
        self.search_text = text;
    }

    /// Shows the questions found by the search text.
    pub fn apply_search(&mut self)
        ensures
            final(self).shown() == search_result(old(self).all(), old(self).search()),
            final(self).all() == old(self).all(),
            final(self).search() == old(self).search(),
            final(self).selected() == old(self).selected(),
    {
        self.filtered_questions = filter_questions(&self.questions, self.search_text.as_str());
    }

    /// The questions shown.
    pub fn filtered_questions(&self) -> (v: &Vec<QuestionAndAnswer>)
        ensures
            v@ == self.shown(),
    {
        &self.filtered_questions
    }

    /// The question opened, if any.
    pub fn selected_question(&self) -> (q: &Option<QuestionAndAnswer>)
        ensures
            *q == self.selected(),
    {
        &self.selected_question
    }

    /// Opens the `index`-th question shown; an index past the list opens
    /// nothing.
    pub fn select_question(&mut self, index: usize)
        ensures
            index < old(self).shown().len() ==> final(self).selected() == Some(old(self).shown()[index as int]),
            index >= old(self).shown().len() ==> final(self).selected() == old(self).selected(),
            final(self).all() == old(self).all(),
            final(self).shown() == old(self).shown(),
            final(self).search() == old(self).search(),
    {
        if index < self.filtered_questions.len() {
            self.selected_question = Some(self.filtered_questions[index].duplicate());
        }
    }

    /// Closes the question opened.
    pub fn close_question(&mut self)
        ensures
            final(self).selected() is None,
            final(self).all() == old(self).all(),
            final(self).shown() == old(self).shown(),
            final(self).search() == old(self).search(),
    {
        self.selected_question = None;
    }
}

} // verus!
