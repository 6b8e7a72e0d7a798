//! Device templates: how a template is applied and in which text format it is written.
use vstd::prelude::*;

use dashmap::DashMap;

use crate::device::platform::SourcePlatform;
use crate::text::str_eq;

verus! {

/// Text format of a template.
#[derive(Debug, Clone, Copy, PartialEq, Eq, Structural)]
pub enum TemplateFormat {
    Yaml,
    Toml,
}

/// Whether a template creates new records or updates existing ones.
#[derive(Debug, Copy, Clone, PartialEq, Eq, Structural)]
pub enum ApplyMethod {
    Update,
    Create,
}

/// Where the accessories made from a template are bridged.
#[derive(Debug, Clone, Copy, PartialEq, Eq, Structural)]
pub enum BridgeMode {
    /// Under an existing bridge.
    Parent,
    /// Each accessory under a bridge of its own, created for it.
    Singer,
}

/// What a device record made from a template is built from.
#[derive(Debug, Clone)]
pub struct DeviceModelCtx {
    pub device_id: i64,
    pub temp_batch_id: i64,
    pub name: String,
    /// Id of the template.
    pub id: String,
    /// Version of the template.
    pub version: String,
    /// Id of the source device.
    pub did: String,
}

/// What an accessory record made from a template is built from.
#[derive(Debug, Clone)]
pub struct AccessoryCtx {
    pub aid: i64,
    pub bridge_id: i64,
    pub dev_ctx: DeviceModelCtx,
}

/// Where the accessories of a template are bridged.
#[derive(Debug, Clone, Copy, PartialEq, Eq, Structural)]
pub enum BridgeTarget {
    /// Under the existing bridge with this id.
    Existing(i64),
    /// Under a bridge created for the accessory.
    CreateNew,
}

/// Chooses the bridge of a template's accessory: in `Parent` mode the given bridge,
/// which must be set; in `Singer` mode a new bridge for each accessory.
pub fn bridge_target(mode: BridgeMode, bridge_id: Option<i64>) -> (r: Result<BridgeTarget, &'static str>)
    ensures
        mode == BridgeMode::Singer ==> r == Ok::<BridgeTarget, &'static str>(BridgeTarget::CreateNew),
        mode == BridgeMode::Parent ==> match bridge_id {
            Some(b) => r == Ok::<BridgeTarget, &'static str>(BridgeTarget::Existing(b)),
            None => r matches Err(m) && m@ == "未设置桥接器"@,
        },
{
    match mode {
        BridgeMode::Parent => match bridge_id {
            Some(b) => Ok(BridgeTarget::Existing(b)),
            None => Err("未设置桥接器"),
        },
        BridgeMode::Singer => Ok(BridgeTarget::CreateNew),
    }
}

/// What a table of loaded templates holds: template id to the device model it is for.
pub uninterp spec fn template_models(m: DashMap<String, String>) -> Map<Seq<char>, Seq<char>>;

/// `DashMap::new`: no templates.
#[verifier::external_body]
fn templates_new() -> (m: DashMap<String, String>)
    ensures
        template_models(m).is_empty(),
{
    DashMap::new()
}

/// `DashMap::insert`: afterwards `id` maps to `model`, every other entry unchanged.
#[verifier::external_body]
fn templates_insert(m: &mut DashMap<String, String>, id: String, model: String)
    ensures
        template_models(*final(m)) == template_models(*old(m)).insert(id@, model@),
{
    m.insert(id, model);
}

/// `DashMap::contains_key`: whether a template has the id `id`.
#[verifier::external_body]
fn templates_contains_key(m: &DashMap<String, String>, id: &str) -> (b: bool)
    ensures
        b == template_models(*m).contains_key(id@),
{
    m.contains_key(id)
}

/// The device models of all templates (one per template, in the map's iteration
/// order), read by iterating the map and copying each value out.
#[verifier::external_body]
fn templates_models(m: &DashMap<String, String>) -> (models: Vec<String>)
    ensures
        forall|i: int|
            0 <= i < models@.len() ==> exists|k: Seq<char>|
                template_models(*m).contains_key(k) && template_models(*m)[k] == (
                #[trigger] models@[i])@,
        forall|k: Seq<char>|
            #[trigger] template_models(*m).contains_key(k) ==> exists|i: int|
                0 <= i < models@.len() && models@[i]@ == template_models(*m)[k],
{
    m.iter().map(|entry| entry.value().clone()).collect()
}

/// Whether templates `models` (id to device model) hold one for device model `model`
/// of `platform`: only Mi Home devices have templates, found either under the
/// model's name as template id or as the model of some template.
pub open spec fn template_found(
    models: Map<Seq<char>, Seq<char>>,
    platform: SourcePlatform,
    model: Seq<char>,
) -> bool {
    platform == SourcePlatform::Mijia && (models.contains_key(model) || exists|k: Seq<char>|
        models.contains_key(k) && models[k] == model)
}

/// Once a template for a Mi Home device model is loaded, a template is found for
/// that model, and for a model named like the template's id.
pub proof fn lemma_loaded_template_is_found(
    models: Map<Seq<char>, Seq<char>>,
    id: Seq<char>,
    model: Seq<char>,
)
    ensures
        template_found(models.insert(id, model), SourcePlatform::Mijia, model),
        template_found(models.insert(id, model), SourcePlatform::Mijia, id),
{
    assert(models.insert(id, model).contains_key(id) && models.insert(id, model)[id] == model);
}

/// No template is found for a device of a platform other than Mi Home.
pub proof fn lemma_only_mijia_has_templates(
    models: Map<Seq<char>, Seq<char>>,
    platform: SourcePlatform,
    model: Seq<char>,
)
    requires
        platform != SourcePlatform::Mijia,
    ensures
        !template_found(models, platform, model),
{
}

/// The loaded device templates, by id, each given by the device model it is for.
pub struct TemplateManager {
    templates: DashMap<String, String>,
}

impl TemplateManager {
    /// What the manager holds: template id to device model.
    pub closed spec fn models(&self) -> Map<Seq<char>, Seq<char>> {
        template_models(self.templates)
    }

    /// A manager with no templates.
    pub fn new() -> (t: TemplateManager)
        ensures
            t.models().is_empty(),
    {
        TemplateManager { templates: templates_new() }
    }

    /// Loads a template for device model `model` under the id `id`.
    pub fn insert_template(&mut self, id: String, model: String)
        ensures
            final(self).models() == old(self).models().insert(id@, model@),
    {
        templates_insert(&mut self.templates, id, model);
    }

    /// Whether a template exists for a device model of a platform: only Mi Home
    /// devices have templates, found either under the model's name as template id
    /// or as the model of some template.
    #[verifier::loop_isolation(false)]
    pub fn has_template(&self, platform: SourcePlatform, model: &str) -> (b: bool)
        ensures
            b == template_found(self.models(), platform, model@),
    {
        match platform {
            SourcePlatform::Mijia => {
                if templates_contains_key(&self.templates, model) {
                    return true;
                }
                let models = templates_models(&self.templates);
                let mut i: usize = 0;
                while i < models.len()
                    invariant
                        i <= models@.len(),
                        forall|j: int| 0 <= j < i ==> models@[j]@ != model@,
                    decreases models@.len() - i,
                {
                    if str_eq(models[i].as_str(), model) {
                        proof {
                            assert(models@[i as int]@ == model@);
                            let k = choose|k: Seq<char>|
                                template_models(self.templates).contains_key(k) && template_models(
                                    self.templates,
                                )[k] == (#[trigger] models@[i as int])@;
                            assert(self.models().contains_key(k) && self.models()[k] == model@);
                        }
                        return true;
                    }
                    i += 1;
                }
                assert forall|k: Seq<char>|
                    self.models().contains_key(k) implies self.models()[k] != model@ by {
                    let q = choose|q: int|
                        0 <= q < models@.len() && models@[q]@ == template_models(self.templates)[k];
                }
                false
            },
            _ => false,
        }
    }
}

} // verus!
