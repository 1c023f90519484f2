use vstd::prelude::*;

use crate::panel::{course_with_vote, Course2Response, Difficulty, SmmdbCoursePanel};

verus! {

/// Order in which the archive lists courses.
#[derive(Clone, Copy, Debug, PartialEq, Eq, Structural)]
pub enum SortOptions {
    LastModified,
    Uploaded,
    Title,
    Votes,
}

/// Parameters of a catalog query; `page` counts pages from 0.
#[derive(Clone, Debug)]
pub struct QueryParams {
    pub title: String,
    pub uploader: String,
    pub difficulty: Option<Difficulty>,
    pub sort: SortOptions,
    pub page: u32,
}

impl QueryParams {
    /// No filter, newest first, first page.
    pub fn new() -> (r: QueryParams)
        ensures
            r.title@ == Seq::<char>::empty(),
            r.uploader@ == Seq::<char>::empty(),
            r.difficulty is None,
            r.sort == SortOptions::LastModified,
            r.page == 0,
    {
        QueryParams {
            title: String::new(),
            uploader: String::new(),
            difficulty: None,
            sort: SortOptions::LastModified,
            page: 0,
        }
    }

    pub fn duplicate(&self) -> (r: QueryParams)
        ensures
            r == *self,
    {
        QueryParams {
            title: self.title.clone(),
            uploader: self.uploader.clone(),
            difficulty: self.difficulty,
            sort: self.sort,
            page: self.page,
        }
    }
}

/// The catalog: the courses of the last successful fetch, and the query.
#[derive(Debug)]
pub struct Smmdb {
    pub query_params: QueryParams,
    pub course_panels: Vec<SmmdbCoursePanel>,
}

/// A fresh panel for each course, in the order given.
pub open spec fn panels_of(courses: Seq<Course2Response>) -> Seq<SmmdbCoursePanel> {
    courses.map_values(|c: Course2Response| SmmdbCoursePanel { course: c, thumbnail: None })
}

/// Index of the first panel at or after `i` whose course has the id, or -1.
pub open spec fn find_from(ps: Seq<SmmdbCoursePanel>, id: Seq<char>, i: int) -> int
    decreases ps.len() - i,
{
    if i < 0 || i >= ps.len() {
        -1
    } else if ps[i].course.id@ == id {
        i
    } else {
        find_from(ps, id, i + 1)
    }
}

/// Index of the first panel whose course has the id, or -1.
pub open spec fn index_of_id(ps: Seq<SmmdbCoursePanel>, id: Seq<char>) -> int {
    find_from(ps, id, 0)
}

pub proof fn lemma_find_from_range(ps: Seq<SmmdbCoursePanel>, id: Seq<char>, i: int)
    requires
        0 <= i,
    ensures
        find_from(ps, id, i) == -1 || (i <= find_from(ps, id, i) < ps.len() && ps[find_from(
            ps,
            id,
            i,
        )].course.id@ == id),
        find_from(ps, id, i) == -1 ==> forall|j: int|
            i <= j < ps.len() ==> #[trigger] ps[j].course.id@ != id,
    decreases ps.len() - i,
{
    if i < ps.len() && ps[i].course.id@ != id {
        lemma_find_from_range(ps, id, i + 1);
    }
}

/// The panels with the first panel of that id given the thumbnail.
pub open spec fn with_thumbnail(ps: Seq<SmmdbCoursePanel>, id: Seq<char>, t: Vec<u8>) -> Seq<
    SmmdbCoursePanel,
> {
    let k = index_of_id(ps, id);
    if k < 0 {
        ps
    } else {
        ps.update(k, SmmdbCoursePanel { course: ps[k].course, thumbnail: Some(t) })
    }
}

/// The panels with the first panel of that id given the own vote.
pub open spec fn with_own_vote(ps: Seq<SmmdbCoursePanel>, id: Seq<char>, value: i32) -> Seq<
    SmmdbCoursePanel,
> {
    let k = index_of_id(ps, id);
    if k < 0 {
        ps
    } else {
        ps.update(
            k,
            SmmdbCoursePanel { course: course_with_vote(ps[k].course, value), thumbnail: ps[k].thumbnail },
        )
    }
}

/// The ids of the panels, in order.
pub open spec fn ids_of(ps: Seq<SmmdbCoursePanel>) -> Seq<String> {
    ps.map_values(|p: SmmdbCoursePanel| p.course.id)
}

/// The query with one more page, where one more can be counted.
pub open spec fn next_page(q: QueryParams) -> QueryParams {
    if q.page < u32::MAX {
        QueryParams { page: (q.page + 1) as u32, ..q }
    } else {
        q
    }
}

/// The query with one page less, stopping at the first.
pub open spec fn prev_page(q: QueryParams) -> QueryParams {
    if q.page > 0 {
        QueryParams { page: (q.page - 1) as u32, ..q }
    } else {
        q
    }
}

impl Smmdb {
    pub fn new() -> (r: Smmdb)
        ensures
            r.course_panels@.len() == 0,
            r.query_params.title@ == Seq::<char>::empty(),
            r.query_params.uploader@ == Seq::<char>::empty(),
            r.query_params.difficulty is None,
            r.query_params.sort == SortOptions::LastModified,
            r.query_params.page == 0,
    {
        Smmdb { query_params: QueryParams::new(), course_panels: Vec::new() }
    }

    pub fn get_query_params(&self) -> (r: &QueryParams)
        ensures
            *r == self.query_params,
    {
        &self.query_params
    }

    /// Replaces the whole catalog by the courses given.
    pub fn set_courses(&mut self, courses: Vec<Course2Response>)
        ensures
            final(self).course_panels@ == panels_of(courses@),
            final(self).query_params == old(self).query_params,
    {
        let mut panels: Vec<SmmdbCoursePanel> = Vec::new();
        let mut rest = courses;
        let ghost all = rest@;
        let n = rest.len();
        let mut i: usize = 0;
        while i < n
            invariant
                n == all.len(),
                i <= n,
                rest@ == all.subrange(i as int, n as int),
                panels@ == panels_of(all.subrange(0, i as int)),
            decreases n - i,
        {
            let c = rest.remove(0);
            panels.push(SmmdbCoursePanel::new(c));
            i = i + 1;
            assert(rest@ =~= all.subrange(i as int, n as int));
            assert(all.subrange(0, i as int) =~= all.subrange(0, i - 1).push(all[i - 1]));
            assert(panels@ =~= panels_of(all.subrange(0, i as int)));
        }
        assert(all.subrange(0, n as int) =~= all);
        self.course_panels = panels;
    }

    /// The ids of all courses of the catalog, in order.
    pub fn course_ids(&self) -> (r: Vec<String>)
        ensures
            r@ == ids_of(self.course_panels@),
    {
        let mut ids: Vec<String> = Vec::new();
        let mut i: usize = 0;
        while i < self.course_panels.len()
            invariant
                i <= self.course_panels@.len(),
                ids@ == ids_of(self.course_panels@.subrange(0, i as int)),
            decreases self.course_panels@.len() - i,
        {
            ids.push(self.course_panels[i].get_id().clone());
            i = i + 1;
            assert(ids@ =~= ids_of(self.course_panels@.subrange(0, i as int)));
        }
        assert(self.course_panels@.subrange(0, i as int) =~= self.course_panels@);
        ids
    }

    /// Index of the first panel whose course has the id.
    fn position_of(&self, id: &String) -> (r: Option<usize>)
        ensures
            match r {
                Some(k) => k < self.course_panels@.len() && k as int == index_of_id(
                    self.course_panels@,
                    id@,
                ),
                None => index_of_id(self.course_panels@, id@) == -1,
            },
    {
        let mut i: usize = 0;
        while i < self.course_panels.len()
            invariant
                i <= self.course_panels@.len(),
                find_from(self.course_panels@, id@, i as int) == index_of_id(
                    self.course_panels@,
                    id@,
                ),
            decreases self.course_panels@.len() - i,
        {
            if self.course_panels[i].course.id.eq(id) {
                return Some(i);
            }
            i = i + 1;
        }
        None
    }

    /// Gives the course of that id its thumbnail; a stale id changes nothing.
    pub fn set_course_panel_thumbnail(&mut self, id: &String, thumbnail: Vec<u8>)
        ensures
            final(self).course_panels@ == with_thumbnail(old(self).course_panels@, id@, thumbnail),
            final(self).query_params == old(self).query_params,
    {
        match self.position_of(id) {
            Some(k) => {
                let mut panel = self.course_panels.remove(k);
                panel.set_thumbnail(thumbnail);
                self.course_panels.insert(k, panel);
                assert(self.course_panels@ =~= with_thumbnail(
                    old(self).course_panels@,
                    id@,
                    thumbnail,
                ));
            },
            None => {},
        }
    }

    /// Records the user's own vote on the course of that id.
    pub fn set_own_vote(&mut self, id: &String, value: i32)
        ensures
            final(self).course_panels@ == with_own_vote(old(self).course_panels@, id@, value),
            final(self).query_params == old(self).query_params,
    {
        match self.position_of(id) {
            Some(k) => {
                let mut panel = self.course_panels.remove(k);
                panel.set_own_vote(value);
                self.course_panels.insert(k, panel);
                assert(self.course_panels@ =~= with_own_vote(old(self).course_panels@, id@, value));
            },
            None => {},
        }
    }

    pub fn set_title(&mut self, title: String)
        ensures
            final(self).query_params == (QueryParams { title, ..old(self).query_params }),
            final(self).course_panels == old(self).course_panels,
    {
        self.query_params.title = title;
    }

    pub fn set_uploader(&mut self, uploader: String)
        ensures
            final(self).query_params == (QueryParams { uploader, ..old(self).query_params }),
            final(self).course_panels == old(self).course_panels,
    {
        self.query_params.uploader = uploader;
    }

    pub fn set_difficulty(&mut self, difficulty: Option<Difficulty>)
        ensures
            final(self).query_params == (QueryParams { difficulty, ..old(self).query_params }),
            final(self).course_panels == old(self).course_panels,
    {
        self.query_params.difficulty = difficulty;
    }

    pub fn set_sort(&mut self, sort: SortOptions)
        ensures
            final(self).query_params == (QueryParams { sort, ..old(self).query_params }),
            final(self).course_panels == old(self).course_panels,
    {
        self.query_params.sort = sort;
    }

    pub fn reset_pagination(&mut self)
        ensures
            final(self).query_params == (QueryParams { page: 0, ..old(self).query_params }),
            final(self).course_panels == old(self).course_panels,
    {
        self.query_params.page = 0;
    }

    pub fn paginate_forward(&mut self)
        ensures
            final(self).query_params == next_page(old(self).query_params),
            final(self).course_panels == old(self).course_panels,
    {
        if self.query_params.page < u32::MAX {
            self.query_params.page = self.query_params.page + 1;
        }
    }

    pub fn paginate_backward(&mut self)
        ensures
            final(self).query_params == prev_page(old(self).query_params),
            final(self).course_panels == old(self).course_panels,
    {
        if self.query_params.page > 0 {
            self.query_params.page = self.query_params.page - 1;
        }
    }
}

} // verus!
