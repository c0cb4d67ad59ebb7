use vstd::prelude::*;
use crate::model::{Timestamp, Todo, TodoView, UpdateTodoSchema, created, patched, merge_text};
use crate::response::{ApiError, ErrorKind, conflict_message, not_found_message, conflict_error, not_found_error, internal_error};

verus! {

/// Some record in `s` has exactly this title.
pub open spec fn has_title(s: Seq<TodoView>, title: Seq<char>) -> bool {
    exists|i: int| 0 <= i < s.len() && #[trigger] s[i].title == title
}

/// Some record in `s` has exactly this id.
pub open spec fn has_id(s: Seq<TodoView>, id: Seq<char>) -> bool {
    exists|i: int| 0 <= i < s.len() && #[trigger] s[i].id == Some(id)
}

/// Every record has an id, and no two records share one.
pub open spec fn ids_unique(s: Seq<TodoView>) -> bool {
    &&& forall|i: int| 0 <= i < s.len() ==> (#[trigger] s[i]).id is Some
    &&& forall|i: int, j: int|
        0 <= i < s.len() && 0 <= j < s.len() && i != j ==> (#[trigger] s[i]).id != (#[trigger] s[j]).id
}

/// The first record of `s` whose id is `id`.
pub open spec fn find_id(s: Seq<TodoView>, id: Seq<char>) -> Option<TodoView>
    decreases s.len(),
{
    if s.len() == 0 {
        None
    } else if s[0].id == Some(id) {
        Some(s[0])
    } else {
        find_id(s.drop_first(), id)
    }
}

/// A create of `title` under the fresh id `id` goes through on `s`.
pub open spec fn create_succeeds(s: Seq<TodoView>, title: Seq<char>, id: Seq<char>) -> bool {
    !has_title(s, title) && !has_id(s, id)
}

/// The collection after a create: the new record appended when it goes
/// through, else unchanged.
pub open spec fn after_create(s: Seq<TodoView>, body: TodoView, id: Seq<char>, now: Timestamp) -> Seq<TodoView> {
    if create_succeeds(s, body.title, id) {
        s.push(created(body, id, now))
    } else {
        s
    }
}

/// The records from offset `(page - 1) * limit` on, at most `limit` of them.
pub open spec fn page_of(s: Seq<TodoView>, page: int, limit: int) -> Seq<TodoView> {
    let off = (page - 1) * limit;
    if off >= s.len() {
        Seq::empty()
    } else if off + limit >= s.len() {
        s.subrange(off, s.len() as int)
    } else {
        s.subrange(off, off + limit)
    }
}

pub proof fn lemma_find_id_at(s: Seq<TodoView>, id: Seq<char>, i: int)
    requires
        0 <= i < s.len(),
        s[i].id == Some(id),
        forall|j: int| 0 <= j < i ==> (#[trigger] s[j]).id != Some(id),
    ensures
        find_id(s, id) == Some(s[i]),
    decreases i,
{
    if i > 0 {
        let t = s.drop_first();
        assert forall|j: int| 0 <= j < i - 1 implies (#[trigger] t[j]).id != Some(id) by {
            assert(t[j] == s[j + 1]);
        }
        lemma_find_id_at(t, id, i - 1);
    }
}

pub proof fn lemma_find_id_none(s: Seq<TodoView>, id: Seq<char>)
    requires
        !has_id(s, id),
    ensures
        find_id(s, id) is None,
    decreases s.len(),
{
    if s.len() > 0 {
        let t = s.drop_first();
        assert(s[0].id != Some(id));
        assert forall|j: int| 0 <= j < t.len() implies (#[trigger] t[j]).id != Some(id) by {
            assert(t[j] == s[j + 1]);
        }
        lemma_find_id_none(t, id);
    }
}

/// The collection of todo records, in insertion order.
pub struct TodoStore {
    pub todos: Vec<Todo>,
}

impl View for TodoStore {
    type V = Seq<TodoView>;

    open spec fn view(&self) -> Seq<TodoView> {
        self.todos@.map_values(|t: Todo| t@)
    }
}

impl TodoStore {
    pub open spec fn wf(&self) -> bool {
        ids_unique(self@)
    }

    /// An empty collection.
    pub fn new() -> (r: TodoStore)
        ensures
            r.wf(),
            r@ == Seq::<TodoView>::empty(),
    {
        let r = TodoStore { todos: Vec::new() };
        assert(r@ =~= Seq::<TodoView>::empty());
        r
    }

    /// The number of records.
    pub fn len(&self) -> (r: usize)
        ensures
            r == self@.len(),
    {
        self.todos.len()
    }

    /// The position of the first record whose id is `id`.
    pub fn find_index(&self, id: &String) -> (r: Option<usize>)
        ensures
            match r {
                Some(i) => i < self@.len() && self@[i as int].id == Some(id@)
                    && find_id(self@, id@) == Some(self@[i as int]),
                None => !has_id(self@, id@) && find_id(self@, id@) is None,
            },
    {
        let mut i: usize = 0;
        while i < self.todos.len()
            invariant
                i <= self.todos@.len(),
                forall|j: int| 0 <= j < i ==> (#[trigger] self@[j]).id != Some(id@),
            decreases self.todos@.len() - i,
        {
            if self.todos[i].has_id(id) {
                proof {
                    lemma_find_id_at(self@, id@, i as int);
                }
                return Some(i);
            }
            i = i + 1;
        }
        proof {
            lemma_find_id_none(self@, id@);
        }
        None
    }

    /// Whether some record has exactly this title.
    pub fn title_taken(&self, title: &String) -> (r: bool)
        ensures
            r == has_title(self@, title@),
    {
        let mut i: usize = 0;
        while i < self.todos.len()
            invariant
                i <= self.todos@.len(),
                forall|j: int| 0 <= j < i ==> (#[trigger] self@[j]).title != title@,
            decreases self.todos@.len() - i,
        {
            if self.todos[i].title == *title {
                assert(self@[i as int].title == title@);
                return true;
            }
            i = i + 1;
        }
        false
    }

    /// The record whose id is `id`, or NotFound.
    pub fn get(&self, id: &String) -> (r: Result<Todo, ApiError>)
        ensures
            match find_id(self@, id@) {
                Some(t) => r is Ok && r->Ok_0@ == t,
                None => r is Err && r->Err_0.kind == ErrorKind::NotFound
                    && r->Err_0.body.message@ == not_found_message(id@),
            },
    {
        match self.find_index(id) {
            Some(i) => Ok(self.todos[i].duplicate()),
            None => Err(not_found_error(id)),
        }
    }

    /// Appends a record built from `body`'s title and content under the id
    /// `id`, created and updated at `now`. Fails with Conflict when the title
    /// is taken, and with InternalFault when the id is, leaving the
    /// collection unchanged.
    pub fn create_with(&mut self, body: &Todo, id: String, now: Timestamp) -> (r: Result<Todo, ApiError>)
        requires
            old(self).wf(),
        ensures
            final(self).wf(),
            final(self)@ == after_create(old(self)@, body@, id@, now),
            r is Ok <==> create_succeeds(old(self)@, body@.title, id@),
            match r {
                Ok(t) => t@ == created(body@, id@, now),
                Err(e) => if has_title(old(self)@, body@.title) {
                    e.kind == ErrorKind::Conflict && e.body.message@ == conflict_message(body@.title)
                } else {
                    e.kind == ErrorKind::InternalFault
                },
            },
    {
        if self.title_taken(&body.title) {
            return Err(conflict_error(&body.title));
        }
        if self.find_index(&id).is_some() {
            return Err(internal_error());
        }
        let todo = Todo {
            id: Some(id),
            title: body.title.clone(),
            content: body.content.clone(),
            completed: false,
            created_at: Some(now),
            updated_at: Some(now),
        };
        let out = todo.duplicate();
        let ghost prev = self@;
        self.todos.push(todo);
        assert(self@ =~= prev.push(out@));
        assert(ids_unique(self@)) by {
            assert forall|i: int, j: int|
                0 <= i < self@.len() && 0 <= j < self@.len() && i != j
                implies (#[trigger] self@[i]).id != (#[trigger] self@[j]).id by {
                if i == prev.len() {
                    assert(prev[j].id != Some(id@));
                } else if j == prev.len() {
                    assert(prev[i].id != Some(id@));
                }
            }
        }
        Ok(out)
    }

    /// Replaces the record whose id is `id` with the patched record, updated
    /// at `now`; fails with NotFound, leaving the collection unchanged, when
    /// no record has that id.
    pub fn update_with(&mut self, id: &String, patch: &UpdateTodoSchema, now: Timestamp) -> (r: Result<Todo, ApiError>)
        requires
            old(self).wf(),
        ensures
            final(self).wf(),
            r is Ok <==> has_id(old(self)@, id@),
            match r {
                Ok(t) => exists|i: int|
                    0 <= i < old(self)@.len() && (#[trigger] old(self)@[i]).id == Some(id@)
                        && t@ == patched(old(self)@[i], patch@, now)
                        && final(self)@ == old(self)@.update(i, t@),
                Err(e) => e.kind == ErrorKind::NotFound && e.body.message@ == not_found_message(id@)
                    && final(self)@ == old(self)@,
            },
    {
        match self.find_index(id) {
            None => Err(not_found_error(id)),
            Some(i) => {
                let cur = &self.todos[i];
                let todo = Todo {
                    id: crate::model::copy_opt_str(&cur.id),
                    title: merge_text(&patch.title, &cur.title),
                    content: merge_text(&patch.content, &cur.content),
                    completed: match patch.completed {
                        Some(c) => c,
                        None => false,
                    },
                    created_at: cur.created_at,
                    updated_at: Some(now),
                };
                let out = todo.duplicate();
                let ghost prev = self@;
                self.todos.set(i, todo);
                assert(self@ =~= prev.update(i as int, out@));
                assert(ids_unique(self@)) by {
                    assert forall|a: int| 0 <= a < self@.len() implies (#[trigger] self@[a]).id
                        == prev[a].id by {}
                    assert forall|a: int, b: int|
                        0 <= a < self@.len() && 0 <= b < self@.len() && a != b
                        implies (#[trigger] self@[a]).id != (#[trigger] self@[b]).id by {
                        assert(prev[a].id != prev[b].id);
                    }
                }
                Ok(out)
            },
        }
    }

    /// Removes the record whose id is `id`; fails with NotFound, leaving the
    /// collection unchanged, when no record has that id.
    pub fn delete(&mut self, id: &String) -> (r: Result<(), ApiError>)
        requires
            old(self).wf(),
        ensures
            final(self).wf(),
            r is Ok <==> has_id(old(self)@, id@),
            match r {
                Ok(_) => final(self)@.len() == old(self)@.len() - 1
                    && !has_id(final(self)@, id@)
                    && exists|i: int|
                        0 <= i < old(self)@.len() && (#[trigger] old(self)@[i]).id == Some(id@)
                            && final(self)@ == old(self)@.remove(i),
                Err(e) => e.kind == ErrorKind::NotFound && e.body.message@ == not_found_message(id@)
                    && final(self)@ == old(self)@,
            },
    {
        match self.find_index(id) {
            None => Err(not_found_error(id)),
            Some(i) => {
                let ghost prev = self@;
                let _removed = self.todos.remove(i);
                assert(self@ =~= prev.remove(i as int));
                assert forall|a: int| 0 <= a < self@.len() implies (#[trigger] self@[a]).id != Some(id@) by {
                    if a < i {
                        assert(self@[a] == prev[a]);
                    } else {
                        assert(self@[a] == prev[a + 1]);
                    }
                }
                assert forall|a: int, b: int|
                    0 <= a < self@.len() && 0 <= b < self@.len() && a != b
                    implies (#[trigger] self@[a]).id != (#[trigger] self@[b]).id by {
                    let pa = if a < i { a } else { a + 1 };
                    let pb = if b < i { b } else { b + 1 };
                    assert(self@[a] == prev[pa]);
                    assert(self@[b] == prev[pb]);
                }
                assert forall|a: int| 0 <= a < self@.len() implies (#[trigger] self@[a]).id is Some by {
                    let pa = if a < i { a } else { a + 1 };
                    assert(self@[a] == prev[pa]);
                }
                Ok(())
            },
        }
    }

    /// Copies of the records on page `page` (counted from one) of `limit`
    /// records each, in insertion order.
    pub fn list_page(&self, page: usize, limit: usize) -> (r: Vec<Todo>)
        requires
            page >= 1,
        ensures
            r@.map_values(|t: Todo| t@) == page_of(self@, page as int, limit as int),
    {
        let len = self.todos.len();
        let mut out: Vec<Todo> = Vec::new();
        let (start, end) = match (page - 1).checked_mul(limit) {
            None => (len, len),
            Some(off) => {
                if off >= len {
                    (len, len)
                } else if limit >= len - off {
                    (off, len)
                } else {
                    (off, off + limit)
                }
            },
        };
        proof {
            let off = (page - 1) as int * limit as int;
            assert(0 <= (page - 1) as int * limit as int) by (nonlinear_arith)
                requires
                    page >= 1,
                    limit >= 0,
            ;
            let want = page_of(self@, page as int, limit as int);
            if off >= len {
                assert(want =~= self@.subrange(start as int, end as int));
            } else {
                assert(want =~= self@.subrange(start as int, end as int));
            }
        }
        let mut k: usize = start;
        while k < end
            invariant
                start <= k <= end <= len,
                len == self@.len(),
                out@.map_values(|t: Todo| t@) =~= self@.subrange(start as int, k as int),
            decreases end - k,
        {
            let ghost before = out@.map_values(|t: Todo| t@);
            let d = self.todos[k].duplicate();
            assert(d@ == self@[k as int]);
            out.push(d);
            assert(out@.map_values(|t: Todo| t@) =~= before.push(d@));
            assert(self@.subrange(start as int, k + 1) =~= self@.subrange(start as int, k as int).push(d@));
            k = k + 1;
        }
        out
    }
}

} // verus!
