//! Tenancy levels, the caller's selection, and the place of a grant in the store.

use vstd::prelude::*;
use crate::error::{ok_view, Error, Unsupported};
use crate::views::text_view;

verus! {

/// The level that a statement names: root, namespace, database, or a scope
/// below a database, at which access methods are not managed.
#[derive(Debug, PartialEq, Eq, PartialOrd, Hash)]
pub enum Base {
    Root,
    Ns,
    Db,
    Sc(String),
}

/// The mathematical value of a [`Base`].
pub enum BaseView {
    Root,
    Ns,
    Db,
    Sc(Seq<char>),
}

impl View for Base {
    type V = BaseView;

    open spec fn view(&self) -> BaseView {
        match self {
            Base::Root => BaseView::Root,
            Base::Ns => BaseView::Ns,
            Base::Db => BaseView::Db,
            Base::Sc(name) => BaseView::Sc(name@),
        }
    }
}

impl Clone for Base {
    fn clone(&self) -> (r: Self)
        ensures
            r == *self,
    {
        match self {
            Base::Root => Base::Root,
            Base::Ns => Base::Ns,
            Base::Db => Base::Db,
            Base::Sc(name) => Base::Sc(name.clone()),
        }
    }
}

impl BaseView {
    /// The level as it is written in a statement.
    pub open spec fn text(self) -> Seq<char> {
        match self {
            BaseView::Root => "ROOT"@,
            BaseView::Ns => "NAMESPACE"@,
            BaseView::Db => "DATABASE"@,
            BaseView::Sc(name) => "SCOPE "@ + name,
        }
    }
}

impl Base {
    /// The level as it is written in a statement: `ROOT`, `NAMESPACE`,
    /// `DATABASE`, or `SCOPE` and the name of the scope.
    pub fn to_string(&self) -> (text: String)
        ensures
            text@ == self@.text(),
    {
        match self {
            Base::Root => String::from_str("ROOT"),
            Base::Ns => String::from_str("NAMESPACE"),
            Base::Db => String::from_str("DATABASE"),
            Base::Sc(name) => {
                let mut text = String::from_str("SCOPE ");
                text.append(name.as_str());
                text
            },
        }
    }
}

/// What a caller may ask to do with access grants.
#[derive(Clone, Copy, Debug, PartialEq, Eq, Structural)]
pub enum Action {
    View,
    Edit,
}

/// The namespace and database that the caller has selected, if any.
#[derive(Debug, PartialEq, Eq, Default)]
pub struct Selection {
    pub ns: Option<String>,
    pub db: Option<String>,
}

impl Clone for Selection {
    fn clone(&self) -> (r: Self)
        ensures
            r == *self,
    {
        Selection {
            ns: match &self.ns {
                Some(ns) => Some(ns.clone()),
                None => None,
            },
            db: match &self.db {
                Some(db) => Some(db.clone()),
                None => None,
            },
        }
    }
}

/// A level together with the names that place it: the tenancy part of a
/// grant's key in the store.
#[derive(Debug, PartialEq, Eq)]
pub enum Level {
    Root,
    Ns(String),
    Db(String, String),
}

/// The mathematical value of a [`Level`].
pub enum LevelView {
    Root,
    Ns(Seq<char>),
    Db(Seq<char>, Seq<char>),
}

impl View for Level {
    type V = LevelView;

    open spec fn view(&self) -> LevelView {
        match self {
            Level::Root => LevelView::Root,
            Level::Ns(ns) => LevelView::Ns(ns@),
            Level::Db(ns, db) => LevelView::Db(ns@, db@),
        }
    }
}

impl Clone for Level {
    fn clone(&self) -> (r: Self)
        ensures
            r == *self,
    {
        match self {
            Level::Root => Level::Root,
            Level::Ns(ns) => Level::Ns(ns.clone()),
            Level::Db(ns, db) => Level::Db(ns.clone(), db.clone()),
        }
    }
}

impl LevelView {
    /// The level without its names.
    pub open spec fn base(self) -> BaseView {
        match self {
            LevelView::Root => BaseView::Root,
            LevelView::Ns(_) => BaseView::Ns,
            LevelView::Db(_, _) => BaseView::Db,
        }
    }
}

impl Level {
    /// Whether this is the level of a database.
    pub fn is_database(&self) -> (r: bool)
        ensures
            r == (self@ is Db),
    {
        match self {
            Level::Db(_, _) => true,
            _ => false,
        }
    }

    /// The level without its names.
    pub fn base(&self) -> (b: Base)
        ensures
            b@ == self@.base(),
    {
        match self {
            Level::Root => Base::Root,
            Level::Ns(_) => Base::Ns,
            Level::Db(_, _) => Base::Db,
        }
    }
}

/// The level that the selection stands for: root with nothing selected, a
/// namespace with only that selected, a database with both.
pub open spec fn spec_selected_base(
    ns: Option<Seq<char>>,
    db: Option<Seq<char>>,
) -> Result<BaseView, Error> {
    match (ns, db) {
        (None, None) => Ok(BaseView::Root),
        (Some(_), None) => Ok(BaseView::Ns),
        (Some(_), Some(_)) => Ok(BaseView::Db),
        (None, Some(_)) => Err(Error::LevelMismatch),
    }
}

/// The level of a statement: the one it names, else the selected one.
pub open spec fn spec_resolve_base(
    named: Option<BaseView>,
    ns: Option<Seq<char>>,
    db: Option<Seq<char>>,
) -> Result<BaseView, Error> {
    match named {
        Some(base) => Ok(base),
        None => spec_selected_base(ns, db),
    }
}

/// The place of `base` under the selection: a namespace level needs a
/// selected namespace, a database level a namespace and a database; below
/// the database nothing is managed.
pub open spec fn spec_locate(
    base: BaseView,
    ns: Option<Seq<char>>,
    db: Option<Seq<char>>,
) -> Result<LevelView, Error> {
    match base {
        BaseView::Root => Ok(LevelView::Root),
        BaseView::Ns => match ns {
            Some(ns) => Ok(LevelView::Ns(ns)),
            None => Err(Error::LevelMismatch),
        },
        BaseView::Db => match (ns, db) {
            (Some(ns), Some(db)) => Ok(LevelView::Db(ns, db)),
            _ => Err(Error::LevelMismatch),
        },
        BaseView::Sc(_) => Err(Error::Unimplemented(Unsupported::Level)),
    }
}

/// The place of `base` for a caller who is, or is not, allowed to act
/// there: a caller who is not allowed is turned away before anything else
/// is looked at.
pub open spec fn spec_enter(
    base: BaseView,
    allowed: bool,
    ns: Option<Seq<char>>,
    db: Option<Seq<char>>,
) -> Result<LevelView, Error> {
    if allowed {
        spec_locate(base, ns, db)
    } else {
        Err(Error::Denied)
    }
}

/// The view of an optional level name.
pub open spec fn base_view(base: Option<Base>) -> Option<BaseView> {
    match base {
        Some(b) => Some(b@),
        None => None,
    }
}

impl Selection {
    /// The level that the selection stands for.
    pub fn selected_base(&self) -> (r: Result<Base, Error>)
        ensures
            ok_view(r) == spec_selected_base(text_view(self.ns), text_view(self.db)),
    {
        match (&self.ns, &self.db) {
            (None, None) => Ok(Base::Root),
            (Some(_), None) => Ok(Base::Ns),
            (Some(_), Some(_)) => Ok(Base::Db),
            (None, Some(_)) => Err(Error::LevelMismatch),
        }
    }

    /// The level of a statement that names `named`, or names none.
    pub fn resolve_base(&self, named: &Option<Base>) -> (r: Result<Base, Error>)
        ensures
            ok_view(r) == spec_resolve_base(
                base_view(*named),
                text_view(self.ns),
                text_view(self.db),
            ),
    {
        match named {
            Some(base) => Ok(base.clone()),
            None => self.selected_base(),
        }
    }

    /// The place of `base` under this selection, for a caller of whom it
    /// is known whether the action of the statement is allowed at `base`.
    pub fn enter(&self, base: &Base, allowed: bool) -> (r: Result<Level, Error>)
        ensures
            ok_view(r) == spec_enter(base@, allowed, text_view(self.ns), text_view(self.db)),
    {
        if allowed {
            self.locate(base)
        } else {
            Err(Error::Denied)
        }
    }

    /// The place of `base` under this selection.
    pub fn locate(&self, base: &Base) -> (r: Result<Level, Error>)
        ensures
            ok_view(r) == spec_locate(base@, text_view(self.ns), text_view(self.db)),
    {
        match base {
            Base::Root => Ok(Level::Root),
            Base::Ns => match &self.ns {
                Some(ns) => Ok(Level::Ns(ns.clone())),
                None => Err(Error::LevelMismatch),
            },
            Base::Db => match (&self.ns, &self.db) {
                (Some(ns), Some(db)) => Ok(Level::Db(ns.clone(), db.clone())),
                _ => Err(Error::LevelMismatch),
            },
            Base::Sc(_) => Err(Error::Unimplemented(Unsupported::Level)),
        }
    }
}

} // verus!
