use vstd::prelude::*;

use crate::app::{AppState, Message};

verus! {

/// Difficulty rating of a remote course.
#[derive(Clone, Copy, Debug, PartialEq, Eq, Structural)]
pub enum Difficulty {
    Unset,
    Easy,
    Normal,
    Expert,
    SuperExpert,
}

/// Summary of a remote course, as the archive lists it.
#[derive(Clone, Debug)]
pub struct Course2Response {
    pub id: String,
    pub title: String,
    pub description: String,
    /// Aggregate vote count.
    pub votes: i32,
    /// The vote of the signed-in user: -1, 0 or 1.
    pub own_vote: i32,
    pub difficulty: Option<Difficulty>,
}

/// One entry of the catalog: a course and its lazily fetched thumbnail.
#[derive(Debug)]
pub struct SmmdbCoursePanel {
    pub course: Course2Response,
    pub thumbnail: Option<Vec<u8>>,
}

/// The course with its own vote replaced.
pub open spec fn course_with_vote(c: Course2Response, value: i32) -> Course2Response {
    Course2Response { own_vote: value, ..c }
}

/// The message of the up arrow: a second up vote takes the vote back.
pub open spec fn upvote_of(p: SmmdbCoursePanel) -> Message {
    if p.course.own_vote > 0 {
        Message::ResetCourseVote(p.course.id)
    } else {
        Message::UpvoteCourse(p.course.id)
    }
}

/// The message of the down arrow: a second down vote takes the vote back.
pub open spec fn downvote_of(p: SmmdbCoursePanel) -> Message {
    if p.course.own_vote < 0 {
        Message::ResetCourseVote(p.course.id)
    } else {
        Message::DownvoteCourse(p.course.id)
    }
}

impl SmmdbCoursePanel {
    pub fn new(course: Course2Response) -> (r: SmmdbCoursePanel)
        ensures
            r.course == course,
            r.thumbnail is None,
    {
        SmmdbCoursePanel { course, thumbnail: None }
    }

    pub fn set_own_vote(&mut self, value: i32)
        ensures
            final(self).course == course_with_vote(old(self).course, value),
            final(self).thumbnail == old(self).thumbnail,
    {
        self.course.own_vote = value;
    }

    pub fn get_id(&self) -> (r: &String)
        ensures
            *r == self.course.id,
    {
        &self.course.id
    }

    pub fn set_thumbnail(&mut self, thumbnail: Vec<u8>)
        ensures
            final(self).course == old(self).course,
            final(self).thumbnail == Some(thumbnail),
    {
        self.thumbnail = Some(thumbnail);
    }

    /// What pressing the up arrow asks for: a second up vote takes the vote back.
    pub fn upvote_message(&self) -> (r: Message)
        ensures
            r == upvote_of(*self),
    {
        if self.course.own_vote > 0 {
            Message::ResetCourseVote(self.course.id.clone())
        } else {
            Message::UpvoteCourse(self.course.id.clone())
        }
    }

    /// What pressing the down arrow asks for: a second down vote takes the vote back.
    pub fn downvote_message(&self) -> (r: Message)
        ensures
            r == downvote_of(*self),
    {
        if self.course.own_vote < 0 {
            Message::ResetCourseVote(self.course.id.clone())
        } else {
            Message::DownvoteCourse(self.course.id.clone())
        }
    }

    /// What a click on the panel asks for: only while a save slot waits for a
    /// download does the panel pick this course for it.
    pub fn select_message(&self, state: &AppState) -> (r: Option<Message>)
        ensures
            match *state {
                AppState::DownloadSelect(index) => r == Some(
                    Message::DownloadCourse(index, self.course.id),
                ),
                _ => r is None,
            },
    {
        match state {
            AppState::DownloadSelect(index) => Some(
                Message::DownloadCourse(*index, self.course.id.clone()),
            ),
            _ => None,
        }
    }
}

} // verus!
