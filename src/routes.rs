use vstd::prelude::*;

verus! {

/// Every operation of the HTTP surface.
#[derive(PartialEq, Eq, Structural, Clone, Copy, Debug)]
pub enum Route {
    Login,
    ListBooks,
    GetBook,
    SearchBooks,
    CreateBook,
    UpdateBook,
    DeleteBook,
}

impl Route {
    /// The operations that change the catalog.
    pub open spec fn is_mutating(self) -> bool {
        self is CreateBook || self is UpdateBook || self is DeleteBook
    }

    pub open spec fn success_status_spec(self) -> u16 {
        match self {
            Route::CreateBook => 201,
            Route::DeleteBook => 204,
            _ => 200,
        }
    }

    /// Whether the route belongs to the protected group behind the auth guard:
    /// exactly the mutating ones.
    pub fn requires_auth(&self) -> (r: bool)
        ensures
            r == self.is_mutating(),
    {
        match self {
            Route::CreateBook | Route::UpdateBook | Route::DeleteBook => true,
            _ => false,
        }
    }

    /// The status of a successful response.
    pub fn success_status(&self) -> (r: u16)
        ensures
            r == self.success_status_spec(),
    {
        match self {
            Route::CreateBook => 201,
            Route::DeleteBook => 204,
            _ => 200,
        }
    }

    pub open spec fn method_spec(self) -> Seq<char> {
        match self {
            Route::Login => "POST"@,
            Route::ListBooks => "GET"@,
            Route::GetBook => "GET"@,
            Route::SearchBooks => "GET"@,
            Route::CreateBook => "POST"@,
            Route::UpdateBook => "PUT"@,
            Route::DeleteBook => "DELETE"@,
        }
    }

    pub open spec fn path_spec(self) -> Seq<char> {
        match self {
            Route::Login => "/login"@,
            Route::ListBooks => "/books"@,
            Route::GetBook => "/books/:id"@,
            Route::SearchBooks => "/books/search"@,
            Route::CreateBook => "/books"@,
            Route::UpdateBook => "/books/:id"@,
            Route::DeleteBook => "/books/:id"@,
        }
    }

    /// The HTTP method of the route.
    pub fn method(&self) -> (r: &'static str)
        ensures
            r@ == self.method_spec(),
    {
        match self {
            Route::Login => "POST",
            Route::ListBooks => "GET",
            Route::GetBook => "GET",
            Route::SearchBooks => "GET",
            Route::CreateBook => "POST",
            Route::UpdateBook => "PUT",
            Route::DeleteBook => "DELETE",
        }
    }

    /// The path pattern of the route; `:id` stands for a book id.
    pub fn path(&self) -> (r: &'static str)
        ensures
            r@ == self.path_spec(),
    {
        match self {
            Route::Login => "/login",
            Route::ListBooks => "/books",
            Route::GetBook => "/books/:id",
            Route::SearchBooks => "/books/search",
            Route::CreateBook => "/books",
            Route::UpdateBook => "/books/:id",
            Route::DeleteBook => "/books/:id",
        }
    }
}

/// The whole route table, public routes first.
pub fn all_routes() -> (r: Vec<Route>)
    ensures
        r@ == seq![
            Route::Login,
            Route::ListBooks,
            Route::GetBook,
            Route::SearchBooks,
            Route::CreateBook,
            Route::UpdateBook,
            Route::DeleteBook,
        ],
{
    let r = vec![
        Route::Login,
        Route::ListBooks,
        Route::GetBook,
        Route::SearchBooks,
        Route::CreateBook,
        Route::UpdateBook,
        Route::DeleteBook,
    ];
    proof {
        assert(r@ =~= seq![
            Route::Login,
            Route::ListBooks,
            Route::GetBook,
            Route::SearchBooks,
            Route::CreateBook,
            Route::UpdateBook,
            Route::DeleteBook,
        ]);
    }
    r
}

} // verus!
