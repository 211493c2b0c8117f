//! The resource: its routes, its errors, how each gateway outcome becomes a
//! response, and the four handlers over the in-memory store.
use vstd::prelude::*;
use crate::store::{
    first_rows, has_key, lookup, removed_key, staged, MemoryStore, Record, StoreError,
};

verus! {

/// The most rows that a listing returns.
pub const LIST_CAP: usize = 10;

/// What a request can fail with, as the client sees it.
#[derive(Debug, Clone, Copy, PartialEq, Eq)]
pub enum ApiError {
    /// The key is absent, or a delete removed nothing.
    NotFound,
    /// The store failed while listing or creating.
    InternalError,
}

impl ApiError {
    pub open spec fn spec_status(&self) -> u16 {
        match self {
            ApiError::NotFound => 404,
            ApiError::InternalError => 500,
        }
    }

    /// The HTTP status that reports this error.
    pub fn status_code(&self) -> (r: u16)
        ensures
            r == self.spec_status(),
    {
        match self {
            ApiError::NotFound => 404,
            ApiError::InternalError => 500,
        }
    }

    /// The opaque message sent with the status; no store detail is exposed.
    pub fn message(&self) -> (r: &'static str)
        ensures
            self is NotFound ==> r@ == "Not Found"@,
            self is InternalError ==> r@ == "Internal Error"@,
    {
        match self {
            ApiError::NotFound => {
                proof {
                    reveal_strlit("Not Found");
                }
                "Not Found"
            },
            ApiError::InternalError => {
                proof {
                    reveal_strlit("Internal Error");
                }
                "Internal Error"
            },
        }
    }
}

/// A request method.
#[derive(Debug, Clone, Copy, PartialEq, Eq)]
pub enum Method {
    Get,
    Head,
    Post,
    Put,
    Patch,
    Delete,
    Options,
}

/// The two paths of the resource: the collection, and one item by key.
#[derive(Debug, Clone, Copy, PartialEq, Eq)]
pub enum RoutePath {
    Root,
    Item,
}

/// The four operations of the resource.
#[derive(Debug, Clone, Copy, PartialEq, Eq)]
pub enum Operation {
    List,
    Create,
    Get,
    Delete,
}

/// The route table: the collection is listed and created into, an item is
/// read and deleted; nothing else is served.
pub open spec fn route_of(m: Method, p: RoutePath) -> Option<Operation> {
    match (p, m) {
        (RoutePath::Root, Method::Get) => Some(Operation::List),
        (RoutePath::Root, Method::Post) => Some(Operation::Create),
        (RoutePath::Item, Method::Get) => Some(Operation::Get),
        (RoutePath::Item, Method::Delete) => Some(Operation::Delete),
        _ => None,
    }
}

impl RoutePath {
    /// The pattern under which the path is mounted.
    pub fn pattern(&self) -> (r: &'static str)
        ensures
            self is Root ==> r@ == "/"@,
            self is Item ==> r@ == "/{item_id}"@,
    {
        match self {
            RoutePath::Root => {
                proof {
                    reveal_strlit("/");
                }
                "/"
            },
            RoutePath::Item => {
                proof {
                    reveal_strlit("/{item_id}");
                }
                "/{item_id}"
            },
        }
    }
}

/// The response to a create: the key that the store assigned.
#[derive(Debug, Clone, PartialEq, Eq)]
pub struct ResId<K> {
    pub id: K,
}

/// The response to a listing.
#[derive(Debug, Clone, PartialEq, Eq)]
pub struct ResList<R> {
    pub items: Vec<R>,
}

/// A listing keeps at most `LIST_CAP` items, the first ones.
pub open spec fn capped<R>(items: Seq<R>) -> Seq<R> {
    if items.len() <= LIST_CAP {
        items
    } else {
        items.take(LIST_CAP as int)
    }
}

/// What a read answers for each outcome of the lookup.
pub open spec fn get_decision<R>(found: Result<Option<R>, StoreError>) -> Result<R, ApiError> {
    match found {
        Ok(Some(item)) => Ok(item),
        _ => Err(ApiError::NotFound),
    }
}

/// What a create answers for each outcome of the insert.
pub open spec fn create_decision<K>(res: Result<K, StoreError>) -> Result<ResId<K>, ApiError> {
    match res {
        Ok(id) => Ok(ResId { id }),
        Err(_) => Err(ApiError::InternalError),
    }
}

/// What a delete answers for each outcome of the store's delete: a failure
/// and zero rows removed both read as not found.
pub open spec fn delete_decision(res: Result<u64, StoreError>) -> Result<(), ApiError> {
    match res {
        Ok(n) => if n > 0 {
            Ok(())
        } else {
            Err(ApiError::NotFound)
        },
        Err(_) => Err(ApiError::NotFound),
    }
}

/// A create / read / delete resource over records whose other fields are `V`.
pub struct ModelApi<V> {
    entity: std::marker::PhantomData<V>,
}

impl<V> ModelApi<V> {
    /// The operation that serves method `m` on path `p`, if any.
    pub fn route(m: Method, p: RoutePath) -> (r: Option<Operation>)
        ensures
            r == route_of(m, p),
    {
        match (p, m) {
            (RoutePath::Root, Method::Get) => Some(Operation::List),
            (RoutePath::Root, Method::Post) => Some(Operation::Create),
            (RoutePath::Item, Method::Get) => Some(Operation::Get),
            (RoutePath::Item, Method::Delete) => Some(Operation::Delete),
            _ => None,
        }
    }

    /// Turns the outcome of a bounded scan into the listing response.
    pub fn list_response<R>(found: Result<Vec<R>, StoreError>) -> (r: Result<ResList<R>, ApiError>)
        ensures
            found is Err ==> r is Err && r->Err_0 == ApiError::InternalError,
            found is Ok ==> r is Ok && r->Ok_0.items@ == capped(found->Ok_0@),
            r is Ok ==> r->Ok_0.items@.len() <= LIST_CAP,
    {
        match found {
            Err(_) => Err(ApiError::InternalError),
            Ok(items) => {
                let mut items = items;
                items.truncate(LIST_CAP);
                Ok(ResList { items })
            },
        }
    }

    /// Turns the outcome of a lookup by key into the read response.
    pub fn get_response<R>(found: Result<Option<R>, StoreError>) -> (r: Result<R, ApiError>)
        ensures
            r == get_decision(found),
    {
        match found {
            Ok(Some(item)) => Ok(item),
            _ => Err(ApiError::NotFound),
        }
    }

    /// Turns the outcome of an insert into the create response.
    pub fn create_response<K>(res: Result<K, StoreError>) -> (r: Result<ResId<K>, ApiError>)
        ensures
            r == create_decision(res),
    {
        match res {
            Ok(id) => Ok(ResId { id }),
            Err(_) => Err(ApiError::InternalError),
        }
    }

    /// Turns the outcome of a delete by key into the delete response.
    pub fn delete_response(res: Result<u64, StoreError>) -> (r: Result<(), ApiError>)
        ensures
            r == delete_decision(res),
    {
        match res {
            Ok(n) => if n > 0 {
                Ok(())
            } else {
                Err(ApiError::NotFound)
            },
            Err(_) => Err(ApiError::NotFound),
        }
    }
    /// Lists the first rows of the store, at most `LIST_CAP` of them.
    pub fn list_model(store: &MemoryStore<V>) -> (r: Result<ResList<&Record<V>>, ApiError>)
        ensures
            r is Ok,
            r->Ok_0.items@.len() == first_rows(store.rows(), LIST_CAP).len(),
            r->Ok_0.items@.len() <= LIST_CAP,
            forall|i: int|
                0 <= i < r->Ok_0.items@.len() ==> *r->Ok_0.items@[i] == store.rows()[i],
    {
        let items = store.find_all(LIST_CAP);
        Self::list_response(Ok(items))
    }

    /// Reads the row with key `id`; an absent key is reported as not found.
    pub fn get_model(store: &MemoryStore<V>, id: u64) -> (r: Result<&Record<V>, ApiError>)
        requires
            store.wf(),
        ensures
            r is Ok <==> has_key(store.rows(), id),
            r is Ok ==> lookup(store.rows(), id) == Some(*r->Ok_0) && r->Ok_0.id == id,
            r is Err ==> r->Err_0 == ApiError::NotFound,
    {
        let found = store.find_by_key(id);
        proof {
            if found is Some {
                let k = choose|k: int| 0 <= k < store.rows().len() && store.rows()[k].id == id;
                assert(lookup(store.rows(), id) == Some(store.rows()[k]));
            }
        }
        Self::get_response(Ok(found))
    }

    /// Creates a row from `payload`. The payload's own key is ignored: the
    /// draft's key is left unset and the store assigns the next key.
    pub fn create_model(store: &mut MemoryStore<V>, payload: Record<V>) -> (r: Result<
        ResId<u64>,
        ApiError,
    >)
        requires
            old(store).wf(),
        ensures
            final(store).wf(),
            old(store).next_key() < u64::MAX ==> {
                &&& r == Ok::<ResId<u64>, ApiError>(ResId { id: old(store).next_key() })
                &&& final(store).rows() == old(store).rows().push(
                    staged(payload, old(store).next_key()),
                )
                &&& final(store).next_key() == old(store).next_key() + 1
            },
            old(store).next_key() == u64::MAX ==> {
                &&& r == Err::<ResId<u64>, ApiError>(ApiError::InternalError)
                &&& final(store).rows() == old(store).rows()
                &&& final(store).next_key() == old(store).next_key()
            },
    {
        let res = store.insert(payload.fields);
        Self::create_response(res)
    }

    /// Deletes the row with key `id`; when nothing is removed, reports not found.
    pub fn delete_model(store: &mut MemoryStore<V>, id: u64) -> (r: Result<(), ApiError>)
        requires
            old(store).wf(),
        ensures
            final(store).wf(),
            final(store).next_key() == old(store).next_key(),
            has_key(old(store).rows(), id) ==> r == Ok::<(), ApiError>(()) && removed_key(
                old(store).rows(),
                final(store).rows(),
                id,
            ),
            !has_key(old(store).rows(), id) ==> r == Err::<(), ApiError>(ApiError::NotFound)
                && final(store).rows() == old(store).rows(),
    {
        let res = store.delete_by_key(id);
        Self::delete_response(res)
    }
}

} // verus!
