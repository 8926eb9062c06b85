//! The registry that maps texture names to their layer in the texture array.

use crate::texture_error::TextureLoadError;
use vstd::hash_map::StringHashMap;
use vstd::prelude::*;
use vstd::string::*;

verus! {

/// A numeric ID for a texture, representing its index in the texture array.
pub type TextureId = u32;

/// The name under which the fallback "missing texture" pattern is registered.
pub open spec fn missing_texture_name() -> Seq<char> {
    "missing"@
}

/// A registry for looking up texture indices from a texture name.
pub struct TextureRegistryResource {
    /// Maps the texture name to its TextureId (index) in the GPU texture array.
    name_to_id: StringHashMap<TextureId>,
    /// The index of the fallback "missing texture" pattern.
    missing_texture_id: TextureId,
}

impl View for TextureRegistryResource {
    type V = Map<Seq<char>, TextureId>;

    closed spec fn view(&self) -> Map<Seq<char>, TextureId> {
        self.name_to_id@
    }
}

impl TextureRegistryResource {
    /// The ID that unknown names resolve to.
    pub closed spec fn missing_id(&self) -> TextureId {
        self.missing_texture_id
    }

    /// The missing texture is always registered, under its ID.
    #[verifier::type_invariant]
    closed spec fn registry_invariant(&self) -> bool {
        &&& self.name_to_id@.contains_key(missing_texture_name())
        &&& self.name_to_id@[missing_texture_name()] == self.missing_texture_id
    }

    /// Creates a new texture registry from a pre-populated map, which must hold
    /// the "missing" texture.
    pub fn new(map: StringHashMap<TextureId>) -> (r: Result<Self, TextureLoadError>)
        requires
            map@.contains_key(missing_texture_name()),
        ensures
            r matches Ok(reg) && reg@ == map@ && reg.missing_id() == map@[missing_texture_name()],
    {
        let missing = "missing";
        let missing_texture_id = match map.get(missing) {
            Some(id) => *id,
            None => 0,
        };
        Ok(TextureRegistryResource { name_to_id: map, missing_texture_id })
    }

    /// Gets the texture ID for a given name, returning the missing texture ID if not found.
    pub fn get_id(&self, name: &str) -> (r: TextureId)
        ensures
            r == if self@.contains_key(name@) { self@[name@] } else { self.missing_id() },
    {
        match self.name_to_id.get(name) {
            Some(id) => *id,
            None => self.missing_texture_id,
        }
    }

    /// Returns the missing texture ID, which is the one registered as "missing".
    pub fn missing_texture(&self) -> (r: TextureId)
        ensures
            r == self.missing_id(),
            self@.contains_key(missing_texture_name()),
            self@[missing_texture_name()] == r,
    {
        proof {
            use_type_invariant(self);
        }
        self.missing_texture_id
    }

    /// Returns true if the registry contains a texture with the given name.
    pub fn contains(&self, name: &str) -> (r: bool)
        ensures
            r == self@.contains_key(name@),
    {
        self.name_to_id.contains_key(name)
    }

    /// Returns the total number of textures in the registry.
    pub fn len(&self) -> (r: usize)
        ensures
            r == self@.len(),
    {
        self.name_to_id.len()
    }

    /// Returns true if the registry contains no textures.
    pub fn is_empty(&self) -> (r: bool)
        ensures
            r == self@.is_empty(),
    {
        self.name_to_id.is_empty()
    }
}

/// The IDs given to textures named (in order) `names`: the missing texture is
/// 0 and the texture at position `i` is `i + 1` (as a `u32`); a later name
/// overrides an earlier entry of the same name.
pub open spec fn texture_ids(names: Seq<Seq<char>>) -> Map<Seq<char>, TextureId>
    decreases names.len(),
{
    if names.len() == 0 {
        Map::empty().insert(missing_texture_name(), 0u32)
    } else {
        texture_ids(names.drop_last()).insert(names.last(), (names.len() % 0x1_0000_0000) as u32)
    }
}

/// The names of a list of strings.
pub open spec fn string_views(names: Seq<String>) -> Seq<Seq<char>> {
    names.map_values(|s: String| s@)
}

/// Builds the map from texture name to ID for textures named (in order) `names`.
pub fn texture_id_map(names: &Vec<String>) -> (r: StringHashMap<TextureId>)
    ensures
        r@ == texture_ids(string_views(names@)),
{
    let mut map = StringHashMap::new();
    map.insert(String::from_str("missing"), 0);
    let ghost views = string_views(names@);
    assert(views.take(0) =~= Seq::<Seq<char>>::empty());
    let mut i: usize = 0;
    while i < names.len()
        invariant
            0 <= i <= names.len(),
            views == string_views(names@),
            map@ == texture_ids(views.take(i as int)),
        decreases names.len() - i,
    {
        let name = names[i].clone();
        let id = ((i as u64 + 1) % 0x1_0000_0000u64) as u32;
        map.insert(name, id);
        assert(views.take(i + 1).drop_last() =~= views.take(i as int));
        i = i + 1;
    }
    assert(views.take(i as int) =~= views);
    map
}

/// With distinct names, none of them "missing", and fewer than `u32::MAX`
/// of them: the texture at position `i` gets ID `i + 1`, "missing" gets 0, no
/// other name is registered, and so the registry holds one entry more than
/// there are names.
pub proof fn lemma_texture_ids_by_position(names: Seq<Seq<char>>)
    requires
        names.no_duplicates(),
        !names.contains(missing_texture_name()),
        names.len() < 0xFFFF_FFFF,
    ensures
        forall|i: int| 0 <= i < names.len() ==> #[trigger] texture_ids(names).contains_key(names[i])
            && texture_ids(names)[names[i]] == i + 1,
        texture_ids(names).contains_key(missing_texture_name()),
        texture_ids(names)[missing_texture_name()] == 0,
        forall|n: Seq<char>| #[trigger] texture_ids(names).contains_key(n)
            ==> n == missing_texture_name() || names.contains(n),
        texture_ids(names).dom().finite(),
        texture_ids(names).len() == names.len() + 1,
    decreases names.len(),
{
    if names.len() == 0 {
        assert(texture_ids(names).dom() =~= Set::empty().insert(missing_texture_name()));
    } else {
        let init = names.drop_last();
        assert(init.no_duplicates());
        assert(!init.contains(missing_texture_name())) by {
            if init.contains(missing_texture_name()) {
                let k = choose|k: int| 0 <= k < init.len() && init[k] == missing_texture_name();
                assert(names[k] == missing_texture_name());
            }
        }
        lemma_texture_ids_by_position(init);
        assert forall|i: int| 0 <= i < names.len() implies #[trigger] texture_ids(names).contains_key(names[i])
            && texture_ids(names)[names[i]] == i + 1 by {
            if i < names.len() - 1 {
                assert(init[i] == names[i]);
                assert(names[i] != names.last());
            }
        }
        assert(names.last() != missing_texture_name()) by {
            assert(names.contains(names[names.len() - 1]));
        }
        assert(!texture_ids(init).contains_key(names.last())) by {
            if texture_ids(init).contains_key(names.last()) {
                let k = choose|k: int| 0 <= k < init.len() && init[k] == names.last();
                assert(names[k] == names[names.len() - 1]);
            }
        }
        assert forall|n: Seq<char>| #[trigger] texture_ids(names).contains_key(n)
            implies n == missing_texture_name() || names.contains(n) by {
            if n != names.last() {
                assert(texture_ids(init).contains_key(n));
                if init.contains(n) {
                    let k = choose|k: int| 0 <= k < init.len() && init[k] == n;
                    assert(names[k] == n);
                }
            } else {
                assert(names[names.len() - 1] == n);
            }
        }
    }
}

} // verus!
