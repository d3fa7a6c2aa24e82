use vstd::prelude::*;

verus! {

/// Author of a model in the catalogue.
pub struct ModelAuthor {
    pub name: String,
    pub url: String,
}

/// One downloadable size of a model.
pub struct ModelVariant {
    pub parameter_size: String,
    pub disk_space: String,
    /// Whether this variant is present locally.
    pub downloaded: bool,
}

/// A model of the catalogue with its variants.
pub struct Model {
    pub id: String,
    pub name: String,
    pub description: String,
    pub author: ModelAuthor,
    pub variants: Vec<ModelVariant>,
}

/// The name under which the model server knows a variant: `id:size`.
pub open spec fn tag_of(model_id: Seq<char>, parameter_size: Seq<char>) -> Seq<char> {
    model_id + seq![':'] + parameter_size
}

/// Whether `tag` is among `names`.
pub open spec fn listed(names: Seq<String>, tag: Seq<char>) -> bool {
    exists|j: int| 0 <= j < names.len() && (#[trigger] names[j])@ == tag
}

/// A variant as it stands after its download status was set from `names`.
pub open spec fn variant_marked(
    before: ModelVariant,
    after: ModelVariant,
    model_id: Seq<char>,
    names: Seq<String>,
) -> bool {
    &&& after.parameter_size == before.parameter_size
    &&& after.disk_space == before.disk_space
    &&& after.downloaded == listed(names, tag_of(model_id, before.parameter_size@))
}

/// A model as it stands after the status of each of its variants was set.
pub open spec fn model_marked(before: Model, after: Model, names: Seq<String>) -> bool {
    &&& after.id == before.id
    &&& after.name == before.name
    &&& after.description == before.description
    &&& after.author == before.author
    &&& after.variants.len() == before.variants.len()
    &&& forall|k: int|
        0 <= k < after.variants.len() ==> variant_marked(
            #[trigger] before.variants[k],
            after.variants[k],
            before.id@,
            names,
        )
}

/// Builds the tag `model_id:parameter_size` that names a model variant.
pub fn model_tag(model_id: &str, parameter_size: &str) -> (r: String)
    ensures
        r@ == tag_of(model_id@, parameter_size@),
{
    let mut tag = String::from_str(model_id);
    tag.append(":");
    tag.append(parameter_size);
    proof {
        reveal_strlit(":");
        assert(tag@ =~= tag_of(model_id@, parameter_size@));
    }
    tag
}

/// Whether `tag` is one of `names`; this is how a variant that is already
/// present locally is recognised.
pub fn is_listed(names: &Vec<String>, tag: &String) -> (r: bool)
    ensures
        r == listed(names@, tag@),
{
    let mut j: usize = 0;
    while j < names.len()
        invariant
            j <= names.len(),
            forall|i: int| 0 <= i < j ==> (#[trigger] names@[i])@ != tag@,
        decreases names.len() - j,
    {
        if names[j] == *tag {
            assert(names@[j as int]@ == tag@);
            return true;
        }
        j += 1;
    }
    false
}

fn mark_variants(
    variants: Vec<ModelVariant>,
    model_id: &String,
    names: &Vec<String>,
) -> (r: Vec<ModelVariant>)
    ensures
        r.len() == variants.len(),
        forall|k: int|
            0 <= k < r.len() ==> variant_marked(
                #[trigger] variants@[k],
                r@[k],
                model_id@,
                names@,
            ),
{
    let ghost orig = variants@;
    let mut rest = variants;
    let mut out: Vec<ModelVariant> = Vec::new();
    while rest.len() > 0
        invariant
            out.len() + rest.len() == orig.len(),
            rest@ == orig.subrange(out.len() as int, orig.len() as int),
            forall|k: int|
                0 <= k < out.len() ==> variant_marked(
                    #[trigger] orig[k],
                    out@[k],
                    model_id@,
                    names@,
                ),
        decreases rest.len(),
    {
        let ghost done = out.len() as int;
        let v = rest.remove(0);
        assert(v == orig[done]);
        let tag = model_tag(model_id.as_str(), v.parameter_size.as_str());
        let downloaded = is_listed(names, &tag);
        let ModelVariant { parameter_size, disk_space, downloaded: _ } = v;
        out.push(ModelVariant { parameter_size, disk_space, downloaded });
        assert(rest@ =~= orig.subrange(out.len() as int, orig.len() as int));
    }
    out
}

/// Sets, for each variant of each model, whether it is present locally: a
/// variant is present when its tag `id:size` is among `local_names`.
pub fn with_download_status(models: Vec<Model>, local_names: &Vec<String>) -> (r: Vec<Model>)
    ensures
        r.len() == models.len(),
        forall|i: int|
            0 <= i < r.len() ==> model_marked(#[trigger] models@[i], r@[i], local_names@),
{
    let ghost orig = models@;
    let mut rest = models;
    let mut out: Vec<Model> = Vec::new();
    while rest.len() > 0
        invariant
            out.len() + rest.len() == orig.len(),
            rest@ == orig.subrange(out.len() as int, orig.len() as int),
            forall|i: int|
                0 <= i < out.len() ==> model_marked(#[trigger] orig[i], out@[i], local_names@),
        decreases rest.len(),
    {
        let ghost done = out.len() as int;
        let m = rest.remove(0);
        assert(m == orig[done]);
        let Model { id, name, description, author, variants } = m;
        let variants = mark_variants(variants, &id, local_names);
        out.push(Model { id, name, description, author, variants });
        assert(rest@ =~= orig.subrange(out.len() as int, orig.len() as int));
    }
    out
}

} // verus!
