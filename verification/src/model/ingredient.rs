//! Ingredients and their one-level composition out of other ingredients.

use crate::error::{is_database_error, DatabaseFailure, Error, NOT_FOUND};
use crate::ident::{Id, Timestamp};
use crate::model::bar::{requested_thumbnail, resolve_thumbnail};
use crate::model::media::{scope_thumbnail, thumbnail_scoped, MediaModel};
use crate::text::{lowercased, normalize_name};
use vstd::prelude::*;

verus! {

#[derive(Clone, Debug, PartialEq, Eq)]
pub struct IngredientModel {
    pub id: Id,
    pub name: String,
    pub description: String,
    pub owner: Id,
    pub created_at: Timestamp,
    pub thumbnail: Option<MediaModel>,
}

/// What a caller sends to create an ingredient.
#[derive(Clone, Debug, PartialEq, Eq)]
pub struct CreateIngredientSchema {
    pub name: String,
    pub description: String,
    pub thumbnail_id: Option<Id>,
}


/// One edge of the composition graph as the store holds it: the compound
/// ingredient's id, the weight, and the component ingredient joined in.
#[derive(Clone, Debug, PartialEq, Eq)]
pub struct SubIngredientRow {
    pub id: Id,
    pub compound: Id,
    pub parts: i16,
    pub ingredient: IngredientModel,
}

/// One edge as a caller gets it: the weight and the component ingredient.
#[derive(Clone, Debug, PartialEq, Eq)]
pub struct SubIngredientModel {
    pub id: Id,
    pub parts: i16,
    pub ingredient: IngredientModel,
}

/// True of an edge that belongs to the expansion of `compound` for `owner`:
/// it starts at the compound, its component is the owner's, and so is the
/// component's thumbnail if it has one.
pub open spec fn link_visible(row: SubIngredientRow, owner: Id, compound: Id) -> bool {
    &&& row.compound == compound
    &&& row.ingredient.owner == owner
    &&& (row.ingredient.thumbnail matches Some(media) ==> media.owner == owner)
}

/// The edge that a caller gets for a stored one.
pub open spec fn link_of(row: SubIngredientRow) -> SubIngredientModel {
    SubIngredientModel { id: row.id, parts: row.parts, ingredient: row.ingredient }
}

/// The direct sub-ingredients of `compound` for `owner`: the visible edges,
/// in the order they came.
pub open spec fn links_of(rows: Seq<SubIngredientRow>, owner: Id, compound: Id) -> Seq<
    SubIngredientModel,
>
    decreases rows.len(),
{
    if rows.len() == 0 {
        Seq::empty()
    } else if link_visible(rows.last(), owner, compound) {
        links_of(rows.drop_last(), owner, compound).push(link_of(rows.last()))
    } else {
        links_of(rows.drop_last(), owner, compound)
    }
}

/// Every edge of an expansion is one of the stored edges and is visible, so
/// none leads to an ingredient or a thumbnail of another owner.
pub proof fn lemma_links_are_visible(rows: Seq<SubIngredientRow>, owner: Id, compound: Id)
    ensures
        links_of(rows, owner, compound).len() <= rows.len(),
        forall|j: int|
            0 <= j < links_of(rows, owner, compound).len() ==> exists|k: int|
                0 <= k < rows.len() && link_visible(rows[k], owner, compound) && (
                #[trigger] links_of(rows, owner, compound)[j]) == link_of(rows[k]),
    decreases rows.len(),
{
    if rows.len() > 0 {
        let rest = rows.drop_last();
        lemma_links_are_visible(rest, owner, compound);
        let out = links_of(rows, owner, compound);
        assert forall|j: int| 0 <= j < out.len() implies exists|k: int|
            0 <= k < rows.len() && link_visible(rows[k], owner, compound) && (#[trigger] out[j])
                == link_of(rows[k]) by {
            if j < links_of(rest, owner, compound).len() {
                let k = choose|k: int|
                    0 <= k < rest.len() && link_visible(rest[k], owner, compound) && links_of(
                        rest,
                        owner,
                        compound,
                    )[j] == link_of(rest[k]);
                assert(rows[k] == rest[k]);
            } else {
                assert(out[j] == link_of(rows[rows.len() - 1]));
            }
        }
    }
}

/// A visible edge that is stored is part of the expansion.
pub proof fn lemma_visible_links_are_kept(
    rows: Seq<SubIngredientRow>,
    owner: Id,
    compound: Id,
    k: int,
)
    requires
        0 <= k < rows.len(),
        link_visible(rows[k], owner, compound),
    ensures
        links_of(rows, owner, compound).contains(link_of(rows[k])),
    decreases rows.len(),
{
    let rest = rows.drop_last();
    if k == rows.len() - 1 {
        let out = links_of(rows, owner, compound);
        assert(out[out.len() - 1] == link_of(rows[k]));
    } else {
        lemma_visible_links_are_kept(rest, owner, compound, k);
        let inner = links_of(rest, owner, compound);
        let j = choose|j: int| 0 <= j < inner.len() && inner[j] == link_of(rest[k]);
        assert(links_of(rows, owner, compound)[j] == link_of(rows[k]));
    }
}

/// An ingredient as its owner sees it: the row with its thumbnail kept only where
/// the thumbnail is the owner's too.
pub open spec fn ingredient_scoped(row: IngredientModel, owner: Id) -> IngredientModel {
    IngredientModel { thumbnail: thumbnail_scoped(row.thumbnail, owner), ..row }
}

/// The rows of one owner, in the order they came, each as the owner sees it.
pub open spec fn ingredients_of(rows: Seq<IngredientModel>, owner: Id) -> Seq<IngredientModel>
    decreases rows.len(),
{
    if rows.len() == 0 {
        Seq::empty()
    } else if rows.last().owner == owner {
        ingredients_of(rows.drop_last(), owner).push(ingredient_scoped(rows.last(), owner))
    } else {
        ingredients_of(rows.drop_last(), owner)
    }
}

/// Index of the first row at or after `from` with this owner and id, or the
/// number of rows where there is none.
pub open spec fn ingredient_position(rows: Seq<IngredientModel>, owner: Id, id: Id, from: int) -> int
    decreases rows.len() - from,
{
    if from < 0 || from >= rows.len() {
        rows.len() as int
    } else if rows[from].owner == owner && rows[from].id == id {
        from
    } else {
        ingredient_position(rows, owner, id, from + 1)
    }
}

fn find_ingredient(rows: &Vec<IngredientModel>, owner: Id, id: Id) -> (r: usize)
    ensures
        r == ingredient_position(rows@, owner, id, 0),
        r <= rows@.len(),
        r < rows@.len() ==> rows@[r as int].owner == owner && rows@[r as int].id == id,
{
    let mut i: usize = 0;
    while i < rows.len() && !(rows[i].owner == owner && rows[i].id == id)
        invariant
            i <= rows.len(),
            ingredient_position(rows@, owner, id, 0) == ingredient_position(rows@, owner, id, i as int),
        decreases rows.len() - i,
    {
        i += 1;
    }
    i
}

impl IngredientModel {
    /// This row as `owner` sees it.
    pub fn scoped(&self, owner: Id) -> (r: IngredientModel)
        ensures
            r == ingredient_scoped(*self, owner),
    {
        IngredientModel {
            id: self.id,
            name: self.name.clone(),
            description: self.description.clone(),
            owner: self.owner,
            created_at: self.created_at,
            thumbnail: scope_thumbnail(&self.thumbnail, owner),
        }
    }

    /// The ingredient that a create request ends in, from the row that the store
    /// made for it: the store's id and creation time, the caller as owner,
    /// the requested name in lower case, the requested description, and the requested thumbnail where it
    /// resolves under the same owner. A row of another owner is not handed
    /// on.
    pub fn create(stored: Result<IngredientModel, DatabaseFailure>, owner: Id, ingredient: CreateIngredientSchema) -> (r:
        Result<IngredientModel, Error>)
        ensures
            match stored {
                Ok(row) => if row.owner == owner {
                    &&& r is Ok
                    &&& r->Ok_0.id == row.id
                    &&& r->Ok_0.name@ == lowercased(ingredient.name@)
                    &&& r->Ok_0.description == ingredient.description
                    &&& r->Ok_0.owner == owner
                    &&& r->Ok_0.created_at == row.created_at
                    &&& r->Ok_0.thumbnail == requested_thumbnail(
                        row.thumbnail,
                        ingredient.thumbnail_id,
                        owner,
                    )
                } else {
                    r is Err && r->Err_0.is(NOT_FOUND, "no rows"@)
                },
                Err(failure) => r is Err && is_database_error(failure, r->Err_0),
            },
    {
        match stored {
            Ok(row) => if row.owner == owner {
                Ok(
                    IngredientModel {
                        id: row.id,
                        name: normalize_name(ingredient.name.as_str()),
                        description: ingredient.description,
                        owner,
                        created_at: row.created_at,
                        thumbnail: resolve_thumbnail(&row.thumbnail, ingredient.thumbnail_id, owner),
                    },
                )
            } else {
                Err(Error::new(NOT_FOUND, "no rows"))
            },
            Err(failure) => Err(Error::from_database(failure)),
        }
    }

    /// The owner's ingredients among the fetched rows, in the order they came. No
    /// row of another owner is among them.
    pub fn all(fetched: Result<Vec<IngredientModel>, DatabaseFailure>, owner: Id) -> (r: Result<
        Vec<IngredientModel>,
        Error,
    >)
        ensures
            match fetched {
                Ok(rows) => r is Ok && r->Ok_0@ == ingredients_of(rows@, owner),
                Err(failure) => r is Err && is_database_error(failure, r->Err_0),
            },
            r is Ok ==> forall|j: int|
                0 <= j < r->Ok_0@.len() ==> (#[trigger] r->Ok_0@[j]).owner == owner,
    {
        match fetched {
            Ok(rows) => {
                let mut out: Vec<IngredientModel> = Vec::new();
                let mut i: usize = 0;
                while i < rows.len()
                    invariant
                        i <= rows.len(),
                        out@ == ingredients_of(rows@.take(i as int), owner),
                        forall|j: int| 0 <= j < out@.len() ==> (#[trigger] out@[j]).owner == owner,
                    decreases rows.len() - i,
                {
                    proof {
                        assert(rows@.take(i + 1).drop_last() =~= rows@.take(i as int));
                    }
                    if rows[i].owner == owner {
                        out.push(rows[i].scoped(owner));
                    }
                    i += 1;
                }
                proof {
                    assert(rows@.take(i as int) =~= rows@);
                }
                Ok(out)
            },
            Err(failure) => Err(Error::from_database(failure)),
        }
    }

    /// Picks the owner's ingredient with the given id out of the fetched rows: the
    /// first such row as the owner sees it, `NotFound` where there is none,
    /// so also where every ingredient with that id belongs to someone else.
    pub fn retrieve(fetched: Result<Vec<IngredientModel>, DatabaseFailure>, owner: Id, id: Id) -> (r:
        Result<IngredientModel, Error>)
        ensures
            match fetched {
                Ok(rows) => {
                    let at = ingredient_position(rows@, owner, id, 0);
                    if at < rows@.len() {
                        r is Ok && r->Ok_0 == ingredient_scoped(rows@[at], owner)
                    } else {
                        r is Err && r->Err_0.is(NOT_FOUND, "no rows"@)
                    }
                },
                Err(failure) => r is Err && is_database_error(failure, r->Err_0),
            },
            r is Ok ==> r->Ok_0.owner == owner && r->Ok_0.id == id,
            fetched matches Ok(rows) && (forall|k: int|
                0 <= k < rows@.len() && (#[trigger] rows@[k]).id == id ==> rows@[k].owner != owner)
                ==> r is Err && r->Err_0.is(NOT_FOUND, "no rows"@),
    {
        match fetched {
            Ok(rows) => {
                let at = find_ingredient(&rows, owner, id);
                if at < rows.len() {
                    Ok(rows[at].scoped(owner))
                } else {
                    Err(Error::new(NOT_FOUND, "no rows"))
                }
            },
            Err(failure) => Err(Error::from_database(failure)),
        }
    }
    /// A copy of this row.
    pub fn duplicate(&self) -> (r: IngredientModel)
        ensures
            r == *self,
    {
        IngredientModel {
            id: self.id,
            name: self.name.clone(),
            description: self.description.clone(),
            owner: self.owner,
            created_at: self.created_at,
            thumbnail: match &self.thumbnail {
                Some(media) => Some(media.duplicate()),
                None => None,
            },
        }
    }

    /// The direct sub-ingredients of this ingredient, one level deep: of the
    /// fetched edges, those that start here and whose component and its
    /// thumbnail are this ingredient's owner's, each with its weight and its
    /// component. Edges that lead to another owner's data are left out.
    pub fn ingredients(self, fetched: Result<Vec<SubIngredientRow>, DatabaseFailure>) -> (r: Result<
        Vec<SubIngredientModel>,
        Error,
    >)
        ensures
            match fetched {
                Ok(rows) => r is Ok && r->Ok_0@ == links_of(rows@, self.owner, self.id),
                Err(failure) => r is Err && is_database_error(failure, r->Err_0),
            },
            r is Ok ==> forall|j: int|
                0 <= j < r->Ok_0@.len() ==> {
                    &&& (#[trigger] r->Ok_0@[j]).ingredient.owner == self.owner
                    &&& (r->Ok_0@[j].ingredient.thumbnail matches Some(media) ==> media.owner
                        == self.owner)
                },
    {
        match fetched {
            Ok(rows) => {
                let mut out: Vec<SubIngredientModel> = Vec::new();
                let mut i: usize = 0;
                while i < rows.len()
                    invariant
                        i <= rows.len(),
                        out@ == links_of(rows@.take(i as int), self.owner, self.id),
                        forall|j: int|
                            0 <= j < out@.len() ==> {
                                &&& (#[trigger] out@[j]).ingredient.owner == self.owner
                                &&& (out@[j].ingredient.thumbnail matches Some(media)
                                    ==> media.owner == self.owner)
                            },
                    decreases rows.len() - i,
                {
                    proof {
                        assert(rows@.take(i + 1).drop_last() =~= rows@.take(i as int));
                    }
                    let row = &rows[i];
                    let thumbnail_ok = match &row.ingredient.thumbnail {
                        Some(media) => media.owner == self.owner,
                        None => true,
                    };
                    if row.compound == self.id && row.ingredient.owner == self.owner
                        && thumbnail_ok {
                        out.push(
                            SubIngredientModel {
                                id: row.id,
                                parts: row.parts,
                                ingredient: row.ingredient.duplicate(),
                            },
                        );
                    }
                    i += 1;
                }
                proof {
                    assert(rows@.take(i as int) =~= rows@);
                }
                Ok(out)
            },
            Err(failure) => Err(Error::from_database(failure)),
        }
    }
}

} // verus!
