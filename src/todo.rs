use vstd::prelude::*;

verus! {

/// One to-do item: a caller-assigned id, its text and whether it is done.
pub struct Todo {
    pub id: u64,
    pub text: String,
    pub completed: bool,
}

/// The mathematical value of a `Todo`.
pub ghost struct TodoView {
    pub id: u64,
    pub text: Seq<char>,
    pub completed: bool,
}

impl View for Todo {
    type V = TodoView;

    open spec fn view(&self) -> TodoView {
        TodoView { id: self.id, text: self.text@, completed: self.completed }
    }
}

/// The value of a whole collection, item by item, in the caller's order.
pub open spec fn collection_view(todos: Seq<Todo>) -> Seq<TodoView> {
    todos.map_values(|t: Todo| t@)
}

impl Todo {
    /// Builds an item from its three fields.
    pub fn new(id: u64, text: String, completed: bool) -> (r: Todo)
        ensures
            r@ == (TodoView { id: id, text: text@, completed: completed }),
    {
        Todo { id, text, completed }
    }

    /// A copy of this item with the same fields.
    pub fn duplicate(&self) -> (r: Todo)
        ensures
            r@ == self@,
    {
        Todo { id: self.id, text: self.text.clone(), completed: self.completed }
    }
}

} // verus!
