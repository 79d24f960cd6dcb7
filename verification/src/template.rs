//! The templates that a sandbox can be made from.

use crate::error::HyperboxError;
use crate::order::{is_order, ordered, sort_stable};
use crate::text::{less, precedes, precedes_is_total, precedes_is_transitive, same, views};
use vstd::prelude::*;

verus! {

#[derive(Debug, Clone, PartialEq, Eq)]
pub struct Template {
    pub name: String,
    pub description: String,
}

#[derive(Debug, Clone, PartialEq, Eq)]
pub struct TemplateManifest {
    pub name: String,
    pub description: String,
    pub rootfs: String,
    pub kernel: Option<String>,
    pub tags: Vec<String>,
}

/// The templates by name, kept in the order of their names.
#[derive(Debug)]
pub struct TemplateRegistry {
    templates: Vec<Template>,
}

spec fn in_order(list: Seq<Template>) -> bool {
    forall|i: int, j: int|
        0 <= i < j < list.len() ==> precedes((#[trigger] list[i]).name@, (#[trigger] list[j]).name@)
}

spec fn at(list: Seq<Template>, name: Seq<char>, i: int) -> bool {
    0 <= i < list.len() && list[i].name@ == name
}

spec fn by_name(list: Seq<Template>) -> Map<Seq<char>, Seq<char>> {
    Map::new(
        |n: Seq<char>| exists|i: int| at(list, n, i),
        |n: Seq<char>| list[choose|i: int| at(list, n, i)].description@,
    )
}

proof fn names_are_unique(list: Seq<Template>, i: int)
    requires
        in_order(list),
        0 <= i < list.len(),
    ensures
        by_name(list).contains_key(list[i].name@),
        by_name(list)[list[i].name@] == list[i].description@,
{
    let n = list[i].name@;
    assert(at(list, n, i));
    let k = choose|k: int| at(list, n, k);
    if k != i {
        precedes_is_total(list[i].name@, list[k].name@);
    }
}

/// The descriptions of the default templates by name.
pub open spec fn default_templates() -> Map<Seq<char>, Seq<char>> {
    Map::<Seq<char>, Seq<char>>::empty().insert("python:3.11"@, "Python 3.11 with pip"@).insert(
        "python:3.12"@,
        "Python 3.12 with pip"@,
    ).insert("node:18"@, "Node.js 18 with npm"@).insert("node:20"@, "Node.js 20 with npm"@).insert(
        "golang:1.22"@,
        "Go 1.22 toolchain"@,
    ).insert("rust:1.75"@, "Rust stable toolchain"@).insert(
        "ubuntu:22.04"@,
        "Ubuntu base userspace"@,
    )
}

impl View for TemplateRegistry {
    type V = Map<Seq<char>, Seq<char>>;

    closed spec fn view(&self) -> Map<Seq<char>, Seq<char>> {
        by_name(self.templates@)
    }
}

impl Default for TemplateRegistry {
    fn default() -> (r: Self)
        ensures
            r@ == Map::<Seq<char>, Seq<char>>::empty(),
    {
        let r = TemplateRegistry { templates: Vec::new() };
        assert(by_name(r.templates@) =~= Map::<Seq<char>, Seq<char>>::empty());
        r
    }
}

impl TemplateRegistry {
    #[verifier::type_invariant]
    spec fn wf(self) -> bool {
        in_order(self.templates@)
    }

    /// The first position whose name does not come before the given one.
    fn position(&self, name: &str) -> (r: usize)
        ensures
            r <= self.templates@.len(),
            forall|i: int| 0 <= i < r ==> precedes((#[trigger] self.templates@[i]).name@, name@),
            r < self.templates@.len() ==> !precedes(self.templates@[r as int].name@, name@),
    {
        let mut i: usize = 0;
        while i < self.templates.len() && less(self.templates[i].name.as_str(), name)
            invariant
                i <= self.templates.len(),
                forall|k: int|
                    0 <= k < i ==> precedes((#[trigger] self.templates@[k]).name@, name@),
            decreases self.templates.len() - i,
        {
            i = i + 1;
        }
        i
    }

    /// The registry of the templates that are always there.
    pub fn with_defaults() -> (r: Self)
        ensures
            r@ == default_templates(),
    {
        let mut registry = TemplateRegistry::default();
        registry.put("python:3.11", "Python 3.11 with pip");
        registry.put("python:3.12", "Python 3.12 with pip");
        registry.put("node:18", "Node.js 18 with npm");
        registry.put("node:20", "Node.js 20 with npm");
        registry.put("golang:1.22", "Go 1.22 toolchain");
        registry.put("rust:1.75", "Rust stable toolchain");
        registry.put("ubuntu:22.04", "Ubuntu base userspace");
        registry
    }

    fn put(&mut self, name: &str, description: &str)
        ensures
            final(self)@ == old(self)@.insert(name@, description@),
    {
        self.insert(Template { name: name.to_owned(), description: description.to_owned() });
    }

    /// Adds a template; one of the same name is replaced.
    pub fn insert(&mut self, template: Template)
        ensures
            final(self)@ == old(self)@.insert(template.name@, template.description@),
    {
        proof {
            use_type_invariant(&*self);
        }
        let i: usize = self.position(template.name.as_str());
        let found = i < self.templates.len() && same(
            self.templates[i].name.as_str(),
            template.name.as_str(),
        );
        let ghost before = self.templates@;
        let ghost name = template.name@;
        let mut templates: Vec<Template> = Vec::new();
        std::mem::swap(&mut templates, &mut self.templates);
        if found {
            templates.set(i, template);
        } else {
            templates.insert(i, template);
        }
        proof {
            let after = templates@;
            let shift: int = if found {
                0
            } else {
                1
            };
            assert forall|k: int| i < k < before.len() implies precedes(
                name,
                (#[trigger] before[k]).name@,
            ) by {
                precedes_is_total(before[i as int].name@, name);
                if !found {
                    precedes_is_transitive(name, before[i as int].name@, before[k].name@);
                }
            }
            if !found && i < before.len() {
                precedes_is_total(before[i as int].name@, name);
            }
            assert forall|a: int, b: int| 0 <= a < b < after.len() implies precedes(
                (#[trigger] after[a]).name@,
                (#[trigger] after[b]).name@,
            ) by {
                let x = if a <= i {
                    a
                } else {
                    a - shift
                };
                let y = if b <= i {
                    b
                } else {
                    b - shift
                };
                if a != i && b != i {
                    assert(after[a] == before[x] && after[b] == before[y]);
                }
            }
            assert(in_order(after));
            assert(after[i as int] == template);
            let m = by_name(before).insert(name, template.description@);
            assert forall|n: Seq<char>| by_name(after).contains_key(n) == m.contains_key(n) by {
                if by_name(after).contains_key(n) {
                    let k = choose|k: int| at(after, n, k);
                    if k != i {
                        let o = if k < i {
                            k
                        } else {
                            k - shift
                        };
                        assert(at(before, n, o));
                    }
                }
                if m.contains_key(n) {
                    if n == name {
                        assert(at(after, n, i as int));
                    } else {
                        let o = choose|o: int| at(before, n, o);
                        let k = if o < i {
                            o
                        } else {
                            o + shift
                        };
                        assert(at(after, n, k));
                    }
                }
            }
            assert forall|n: Seq<char>| by_name(after).contains_key(n) implies by_name(after)[n]
                == m[n] by {
                let k = choose|k: int| at(after, n, k);
                names_are_unique(after, k);
                if k != i {
                    let o = if k < i {
                        k
                    } else {
                        k - shift
                    };
                    assert(after[k] == before[o]);
                    names_are_unique(before, o);
                    precedes_is_total(after[k].name@, name);
                } else {
                    assert(n == name);
                }
            }
            assert(by_name(after) =~= m);
        }
        self.templates = templates;
    }

    pub fn get(&self, name: &str) -> (r: Option<&Template>)
        ensures
            r is Some <==> self@.contains_key(name@),
            r matches Some(t) ==> t.name@ == name@ && t.description@ == self@[name@],
    {
        proof {
            use_type_invariant(self);
        }
        let i: usize = self.position(name);
        if i < self.templates.len() && same(self.templates[i].name.as_str(), name) {
            proof {
                names_are_unique(self.templates@, i as int);
            }
            Some(&self.templates[i])
        } else {
            proof {
                if self@.contains_key(name@) {
                    let k = choose|k: int| at(self.templates@, name@, k);
                    precedes_is_total(name@, name@);
                    assert(k >= i);
                    if k > i {
                        precedes_is_total(self.templates@[i as int].name@, name@);
                    }
                }
            }
            None
        }
    }

    /// The templates in the order of their names.
    pub fn list(&self) -> (r: Vec<&Template>)
        ensures
            forall|i: int, j: int|
                0 <= i < j < r@.len() ==> precedes(
                    (#[trigger] r@[i]).name@,
                    (#[trigger] r@[j]).name@,
                ),
            forall|i: int|
                0 <= i < r@.len() ==> self@.contains_key((#[trigger] r@[i]).name@)
                    && self@[r@[i].name@] == r@[i].description@,
            forall|n: Seq<char>| #[trigger]
                self@.contains_key(n) ==> exists|i: int| 0 <= i < r@.len() && r@[i].name@ == n,
    {
        proof {
            use_type_invariant(self);
        }
        let mut out: Vec<&Template> = Vec::new();
        let mut i: usize = 0;
        while i < self.templates.len()
            invariant
                in_order(self.templates@),
                i <= self.templates.len(),
                out@.len() == i,
                forall|k: int| 0 <= k < i ==> *(#[trigger] out@[k]) == self.templates@[k],
            decreases self.templates.len() - i,
        {
            out.push(&self.templates[i]);
            i = i + 1;
        }
        proof {
            assert forall|k: int| 0 <= k < out@.len() implies self@.contains_key(
                (#[trigger] out@[k]).name@,
            ) && self@[out@[k].name@] == out@[k].description@ by {
                names_are_unique(self.templates@, k);
            }
            assert forall|n: Seq<char>| #[trigger] self@.contains_key(n) implies exists|i: int|
                0 <= i < out@.len() && out@[i].name@ == n by {
                let k = choose|k: int| at(self.templates@, n, k);
                assert(out@[k].name@ == n);
            }
        }
        out
    }

    pub fn ensure_exists(&self, name: &str) -> (r: Result<(), HyperboxError>)
        ensures
            r is Ok <==> self@.contains_key(name@),
            r is Err ==> (r matches Err(HyperboxError::TemplateNotFound(n)) && n@ == name@),
    {
        if self.get(name).is_some() {
            Ok(())
        } else {
            Err(HyperboxError::TemplateNotFound(name.to_owned()))
        }
    }

    /// The names of the templates, in order.
    pub fn names(&self) -> (r: Vec<String>)
        ensures
            forall|i: int, j: int|
                0 <= i < j < r@.len() ==> precedes((#[trigger] r@[i])@, (#[trigger] r@[j])@),
            forall|n: Seq<char>|
                self@.contains_key(n) <==> #[trigger] views(r@).contains(n),
    {
        let list = self.list();
        let mut out: Vec<String> = Vec::new();
        let mut i: usize = 0;
        while i < list.len()
            invariant
                i <= list.len(),
                out@.len() == i,
                forall|k: int| 0 <= k < i ==> (#[trigger] out@[k])@ == list@[k].name@,
            decreases list.len() - i,
        {
            out.push(list[i].name.clone());
            i = i + 1;
        }
        proof {
            assert forall|n: Seq<char>|
                self@.contains_key(n) <==> #[trigger] views(out@).contains(n) by {
                if self@.contains_key(n) {
                    let k = choose|i: int| 0 <= i < list@.len() && list@[i].name@ == n;
                    assert(views(out@)[k] == n);
                }
                if views(out@).contains(n) {
                    let k = choose|k: int| 0 <= k < views(out@).len() && views(out@)[k] == n;
                    assert(list@[k].name@ == n);
                }
            }
        }
        out
    }
}

impl Clone for TemplateRegistry {
    fn clone(&self) -> (r: Self)
        ensures
            r@ == self@,
    {
        let mut out: Vec<Template> = Vec::new();
        let mut i: usize = 0;
        while i < self.templates.len()
            invariant
                i <= self.templates.len(),
                out@ == self.templates@.take(i as int),
            decreases self.templates.len() - i,
        {
            let t = &self.templates[i];
            out.push(Template { name: t.name.clone(), description: t.description.clone() });
            i = i + 1;
        }
        assert(out@ =~= self.templates@);
        proof {
            use_type_invariant(self);
        }
        TemplateRegistry { templates: out }
    }
}

/// The order of manifests: by name.
pub open spec fn manifest_before(a: TemplateManifest, b: TemplateManifest) -> bool {
    precedes(a.name@, b.name@)
}

/// Manifests in the order of their names.
pub fn sort_manifests(list: Vec<TemplateManifest>) -> (r: Vec<TemplateManifest>)
    ensures
        r@ == ordered(list@, |a: TemplateManifest, b: TemplateManifest| manifest_before(a, b)),
{
    let by_name = |a: &TemplateManifest, b: &TemplateManifest| -> (r: bool)
        ensures
            r == manifest_before(*a, *b),
    { less(a.name.as_str(), b.name.as_str()) };
    sort_stable(
        list,
        by_name,
        Ghost(|a: TemplateManifest, b: TemplateManifest| manifest_before(a, b)),
    )
}

/// The order of manifests is one that sorting works on.
pub proof fn manifests_have_an_order()
    ensures
        is_order(|a: TemplateManifest, b: TemplateManifest| manifest_before(a, b)),
{
    let f = |a: TemplateManifest, b: TemplateManifest| manifest_before(a, b);
    assert forall|a: TemplateManifest, b: TemplateManifest| #[trigger] f(a, b) implies !f(b, a) by {
        precedes_is_total(a.name@, b.name@);
    }
    assert forall|a: TemplateManifest, b: TemplateManifest, c: TemplateManifest|
        !(#[trigger] f(b, a)) && !(#[trigger] f(c, b)) implies !f(c, a) by {
        precedes_is_total(a.name@, b.name@);
        precedes_is_total(b.name@, c.name@);
        precedes_is_total(c.name@, a.name@);
        if f(c, a) {
            if a.name@ != b.name@ {
                precedes_is_transitive(c.name@, a.name@, b.name@);
            }
        }
    }
}

} // verus!
