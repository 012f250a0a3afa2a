//! Crafting: item keys, data-driven recipes, a per-player job queue, and
//! tick-based completion.  Craft times are in milliseconds.

use vstd::prelude::*;

use crate::inventory::Inventory;
use crate::util::str_eq;

verus! {

/// Every item kind: raw resources and crafted goods.
#[derive(Clone, Copy, PartialEq, Eq, Structural, Debug, Hash)]
pub enum ItemType {
    Iron,
    Copper,
    Silicon,
    Carbon,
    Titanium,
    IronPlate,
    CopperWire,
    SiliconWafer,
    CarbonFiber,
    BasicCircuit,
    HullPanel,
    MiningLaser,
    Thruster,
}

/// The inventory key of an item kind.
pub open spec fn spec_item_key(it: ItemType) -> Seq<char> {
    match it {
        ItemType::Iron => "iron"@,
        ItemType::Copper => "copper"@,
        ItemType::Silicon => "silicon"@,
        ItemType::Carbon => "carbon"@,
        ItemType::Titanium => "titanium"@,
        ItemType::IronPlate => "iron_plate"@,
        ItemType::CopperWire => "copper_wire"@,
        ItemType::SiliconWafer => "silicon_wafer"@,
        ItemType::CarbonFiber => "carbon_fiber"@,
        ItemType::BasicCircuit => "basic_circuit"@,
        ItemType::HullPanel => "hull_panel"@,
        ItemType::MiningLaser => "mining_laser"@,
        ItemType::Thruster => "thruster"@,
    }
}

impl ItemType {
    /// The canonical string key used in inventories.
    pub fn as_str(self) -> (r: &'static str)
        ensures
            r@ == spec_item_key(self),
    {
        match self {
        ItemType::Iron => "iron",
        ItemType::Copper => "copper",
        ItemType::Silicon => "silicon",
        ItemType::Carbon => "carbon",
        ItemType::Titanium => "titanium",
        ItemType::IronPlate => "iron_plate",
        ItemType::CopperWire => "copper_wire",
        ItemType::SiliconWafer => "silicon_wafer",
        ItemType::CarbonFiber => "carbon_fiber",
        ItemType::BasicCircuit => "basic_circuit",
        ItemType::HullPanel => "hull_panel",
        ItemType::MiningLaser => "mining_laser",
        ItemType::Thruster => "thruster",
        }
    }
}

pub struct RecipeInput {
    pub item: ItemType,
    pub amount: u32,
}

pub struct RecipeOutput {
    pub item: ItemType,
    pub amount: u32,
}

pub struct Recipe {
    pub id: String,
    pub name: String,
    pub inputs: Vec<RecipeInput>,
    pub output: RecipeOutput,
    /// Craft duration, milliseconds.
    pub craft_time_ms: u64,
    pub tier: u32,
}

/// Whether a recipe with this id exists.
pub open spec fn recipe_known(id: Seq<char>) -> bool {
    ||| id == "iron_plate"@
    ||| id == "copper_wire"@
    ||| id == "silicon_wafer"@
    ||| id == "carbon_fiber"@
    ||| id == "basic_circuit"@
    ||| id == "hull_panel"@
    ||| id == "mining_laser"@
    ||| id == "thruster"@
}

/// The craft duration of the recipe, milliseconds.
pub open spec fn spec_recipe_time_ms(id: Seq<char>) -> u64 {
    if id == "iron_plate"@ {
        3000
    } else     if id == "copper_wire"@ {
        2000
    } else     if id == "silicon_wafer"@ {
        4000
    } else     if id == "carbon_fiber"@ {
        5000
    } else     if id == "basic_circuit"@ {
        8000
    } else     if id == "hull_panel"@ {
        10000
    } else     if id == "mining_laser"@ {
        15000
    } else     if id == "thruster"@ {
        15000
    } else {
        0
    }
}

/// What every recipe table entry satisfies.
pub open spec fn recipe_entry_wf(r: Recipe) -> bool {
    &&& recipe_known(r.id@)
    &&& r.craft_time_ms == spec_recipe_time_ms(r.id@)
    &&& r.inputs@.len() >= 1
    &&& (forall|i: int| 0 <= i < r.inputs@.len() ==> (#[trigger] r.inputs@[i]).amount > 0)
    &&& (forall|i: int, j: int|
        0 <= i < j < r.inputs@.len() ==> (#[trigger] r.inputs@[i]).item != (
        #[trigger] r.inputs@[j]).item)
    &&& r.output.amount > 0
}

/// The inputs of each recipe: item kinds and amounts, in recipe order.
pub open spec fn spec_recipe_inputs(id: Seq<char>) -> Seq<RecipeInput> {
    if id == "iron_plate"@ {
        seq![RecipeInput { item: ItemType::Iron, amount: 10 }]
    } else if id == "copper_wire"@ {
        seq![RecipeInput { item: ItemType::Copper, amount: 5 }]
    } else if id == "silicon_wafer"@ {
        seq![RecipeInput { item: ItemType::Silicon, amount: 8 }]
    } else if id == "carbon_fiber"@ {
        seq![RecipeInput { item: ItemType::Carbon, amount: 12 }]
    } else if id == "basic_circuit"@ {
        seq![
            RecipeInput { item: ItemType::CopperWire, amount: 2 },
            RecipeInput { item: ItemType::SiliconWafer, amount: 1 },
        ]
    } else if id == "hull_panel"@ {
        seq![
            RecipeInput { item: ItemType::IronPlate, amount: 3 },
            RecipeInput { item: ItemType::CarbonFiber, amount: 1 },
        ]
    } else if id == "mining_laser"@ {
        seq![
            RecipeInput { item: ItemType::BasicCircuit, amount: 2 },
            RecipeInput { item: ItemType::HullPanel, amount: 1 },
        ]
    } else if id == "thruster"@ {
        seq![
            RecipeInput { item: ItemType::HullPanel, amount: 2 },
            RecipeInput { item: ItemType::BasicCircuit, amount: 1 },
        ]
    } else {
        Seq::empty()
    }
}

/// The output of each recipe: item kind and amount.
pub open spec fn spec_recipe_output(id: Seq<char>) -> RecipeOutput {
    if id == "iron_plate"@ {
        RecipeOutput { item: ItemType::IronPlate, amount: 1 }
    } else if id == "copper_wire"@ {
        RecipeOutput { item: ItemType::CopperWire, amount: 1 }
    } else if id == "silicon_wafer"@ {
        RecipeOutput { item: ItemType::SiliconWafer, amount: 1 }
    } else if id == "carbon_fiber"@ {
        RecipeOutput { item: ItemType::CarbonFiber, amount: 1 }
    } else if id == "basic_circuit"@ {
        RecipeOutput { item: ItemType::BasicCircuit, amount: 1 }
    } else if id == "hull_panel"@ {
        RecipeOutput { item: ItemType::HullPanel, amount: 1 }
    } else if id == "mining_laser"@ {
        RecipeOutput { item: ItemType::MiningLaser, amount: 1 }
    } else if id == "thruster"@ {
        RecipeOutput { item: ItemType::Thruster, amount: 1 }
    } else {
        RecipeOutput { item: ItemType::Iron, amount: 0 }
    }
}

/// Whether the inventory holds every input of the recipe.
pub open spec fn spec_has_inputs(inv: Inventory, id: Seq<char>) -> bool {
    forall|k: int|
        0 <= k < spec_recipe_inputs(id).len() ==> inv.spec_get(
            spec_item_key((#[trigger] spec_recipe_inputs(id)[k]).item),
        ) >= spec_recipe_inputs(id)[k].amount
}

/// Whether `key` is the inventory key of some input of the recipe.
pub open spec fn spec_input_key(id: Seq<char>, key: Seq<char>) -> bool {
    exists|k: int|
        0 <= k < spec_recipe_inputs(id).len() && spec_item_key(
            (#[trigger] spec_recipe_inputs(id)[k]).item,
        ) == key
}

fn recipe_iron_plate() -> (r: Recipe)
    ensures
        r.id@ == "iron_plate"@,
        recipe_entry_wf(r),
        r.inputs@.len() == 1,
        r.inputs@[0].item == ItemType::Iron && r.inputs@[0].amount == 10,
        r.output.item == ItemType::IronPlate,
        r.output.amount == 1,
{
    let mut inputs: Vec<RecipeInput> = Vec::new();
    inputs.push(RecipeInput { item: ItemType::Iron, amount: 10 });
    let r = Recipe {
        id: "iron_plate".to_owned(),
        name: "Iron Plate".to_owned(),
        inputs,
        output: RecipeOutput { item: ItemType::IronPlate, amount: 1 },
        craft_time_ms: 3000,
        tier: 1,
    };
    proof {
        reveal_strlit("iron_plate");
        reveal_strlit("copper_wire");
        reveal_strlit("silicon_wafer");
        reveal_strlit("carbon_fiber");
        reveal_strlit("basic_circuit");
        reveal_strlit("hull_panel");
        reveal_strlit("mining_laser");
        reveal_strlit("thruster");
        assert(("iron_plate"@).len() == 10);
        assert(("copper_wire"@).len() == 11);
        assert(("silicon_wafer"@).len() == 13);
        assert(("carbon_fiber"@).len() == 12);
        assert(("basic_circuit"@).len() == 13);
        assert(("hull_panel"@).len() == 10);
        assert(("mining_laser"@).len() == 12);
        assert(("thruster"@).len() == 8);
        assert(("iron_plate"@)[0] == 'i');
        assert(("copper_wire"@)[0] == 'c');
        assert(("silicon_wafer"@)[0] == 's');
        assert(("carbon_fiber"@)[0] == 'c');
        assert(("basic_circuit"@)[0] == 'b');
        assert(("hull_panel"@)[0] == 'h');
        assert(("mining_laser"@)[0] == 'm');
        assert(("thruster"@)[0] == 't');
        assert(("silicon_wafer"@)[1] == 'i');
        assert(("basic_circuit"@)[1] == 'a');
    }
    r
}

fn recipe_copper_wire() -> (r: Recipe)
    ensures
        r.id@ == "copper_wire"@,
        recipe_entry_wf(r),
        r.inputs@.len() == 1,
        r.inputs@[0].item == ItemType::Copper && r.inputs@[0].amount == 5,
        r.output.item == ItemType::CopperWire,
        r.output.amount == 1,
{
    let mut inputs: Vec<RecipeInput> = Vec::new();
    inputs.push(RecipeInput { item: ItemType::Copper, amount: 5 });
    let r = Recipe {
        id: "copper_wire".to_owned(),
        name: "Copper Wire".to_owned(),
        inputs,
        output: RecipeOutput { item: ItemType::CopperWire, amount: 1 },
        craft_time_ms: 2000,
        tier: 1,
    };
    proof {
        reveal_strlit("iron_plate");
        reveal_strlit("copper_wire");
        reveal_strlit("silicon_wafer");
        reveal_strlit("carbon_fiber");
        reveal_strlit("basic_circuit");
        reveal_strlit("hull_panel");
        reveal_strlit("mining_laser");
        reveal_strlit("thruster");
        assert(("iron_plate"@).len() == 10);
        assert(("copper_wire"@).len() == 11);
        assert(("silicon_wafer"@).len() == 13);
        assert(("carbon_fiber"@).len() == 12);
        assert(("basic_circuit"@).len() == 13);
        assert(("hull_panel"@).len() == 10);
        assert(("mining_laser"@).len() == 12);
        assert(("thruster"@).len() == 8);
        assert(("iron_plate"@)[0] == 'i');
        assert(("copper_wire"@)[0] == 'c');
        assert(("silicon_wafer"@)[0] == 's');
        assert(("carbon_fiber"@)[0] == 'c');
        assert(("basic_circuit"@)[0] == 'b');
        assert(("hull_panel"@)[0] == 'h');
        assert(("mining_laser"@)[0] == 'm');
        assert(("thruster"@)[0] == 't');
        assert(("silicon_wafer"@)[1] == 'i');
        assert(("basic_circuit"@)[1] == 'a');
    }
    r
}

fn recipe_silicon_wafer() -> (r: Recipe)
    ensures
        r.id@ == "silicon_wafer"@,
        recipe_entry_wf(r),
        r.inputs@.len() == 1,
        r.inputs@[0].item == ItemType::Silicon && r.inputs@[0].amount == 8,
        r.output.item == ItemType::SiliconWafer,
        r.output.amount == 1,
{
    let mut inputs: Vec<RecipeInput> = Vec::new();
    inputs.push(RecipeInput { item: ItemType::Silicon, amount: 8 });
    let r = Recipe {
        id: "silicon_wafer".to_owned(),
        name: "Silicon Wafer".to_owned(),
        inputs,
        output: RecipeOutput { item: ItemType::SiliconWafer, amount: 1 },
        craft_time_ms: 4000,
        tier: 1,
    };
    proof {
        reveal_strlit("iron_plate");
        reveal_strlit("copper_wire");
        reveal_strlit("silicon_wafer");
        reveal_strlit("carbon_fiber");
        reveal_strlit("basic_circuit");
        reveal_strlit("hull_panel");
        reveal_strlit("mining_laser");
        reveal_strlit("thruster");
        assert(("iron_plate"@).len() == 10);
        assert(("copper_wire"@).len() == 11);
        assert(("silicon_wafer"@).len() == 13);
        assert(("carbon_fiber"@).len() == 12);
        assert(("basic_circuit"@).len() == 13);
        assert(("hull_panel"@).len() == 10);
        assert(("mining_laser"@).len() == 12);
        assert(("thruster"@).len() == 8);
        assert(("iron_plate"@)[0] == 'i');
        assert(("copper_wire"@)[0] == 'c');
        assert(("silicon_wafer"@)[0] == 's');
        assert(("carbon_fiber"@)[0] == 'c');
        assert(("basic_circuit"@)[0] == 'b');
        assert(("hull_panel"@)[0] == 'h');
        assert(("mining_laser"@)[0] == 'm');
        assert(("thruster"@)[0] == 't');
        assert(("silicon_wafer"@)[1] == 'i');
        assert(("basic_circuit"@)[1] == 'a');
    }
    r
}

fn recipe_carbon_fiber() -> (r: Recipe)
    ensures
        r.id@ == "carbon_fiber"@,
        recipe_entry_wf(r),
        r.inputs@.len() == 1,
        r.inputs@[0].item == ItemType::Carbon && r.inputs@[0].amount == 12,
        r.output.item == ItemType::CarbonFiber,
        r.output.amount == 1,
{
    let mut inputs: Vec<RecipeInput> = Vec::new();
    inputs.push(RecipeInput { item: ItemType::Carbon, amount: 12 });
    let r = Recipe {
        id: "carbon_fiber".to_owned(),
        name: "Carbon Fiber".to_owned(),
        inputs,
        output: RecipeOutput { item: ItemType::CarbonFiber, amount: 1 },
        craft_time_ms: 5000,
        tier: 2,
    };
    proof {
        reveal_strlit("iron_plate");
        reveal_strlit("copper_wire");
        reveal_strlit("silicon_wafer");
        reveal_strlit("carbon_fiber");
        reveal_strlit("basic_circuit");
        reveal_strlit("hull_panel");
        reveal_strlit("mining_laser");
        reveal_strlit("thruster");
        assert(("iron_plate"@).len() == 10);
        assert(("copper_wire"@).len() == 11);
        assert(("silicon_wafer"@).len() == 13);
        assert(("carbon_fiber"@).len() == 12);
        assert(("basic_circuit"@).len() == 13);
        assert(("hull_panel"@).len() == 10);
        assert(("mining_laser"@).len() == 12);
        assert(("thruster"@).len() == 8);
        assert(("iron_plate"@)[0] == 'i');
        assert(("copper_wire"@)[0] == 'c');
        assert(("silicon_wafer"@)[0] == 's');
        assert(("carbon_fiber"@)[0] == 'c');
        assert(("basic_circuit"@)[0] == 'b');
        assert(("hull_panel"@)[0] == 'h');
        assert(("mining_laser"@)[0] == 'm');
        assert(("thruster"@)[0] == 't');
        assert(("silicon_wafer"@)[1] == 'i');
        assert(("basic_circuit"@)[1] == 'a');
    }
    r
}

fn recipe_basic_circuit() -> (r: Recipe)
    ensures
        r.id@ == "basic_circuit"@,
        recipe_entry_wf(r),
        r.inputs@.len() == 2,
        r.inputs@[0].item == ItemType::CopperWire && r.inputs@[0].amount == 2,
        r.inputs@[1].item == ItemType::SiliconWafer && r.inputs@[1].amount == 1,
        r.output.item == ItemType::BasicCircuit,
        r.output.amount == 1,
{
    let mut inputs: Vec<RecipeInput> = Vec::new();
    inputs.push(RecipeInput { item: ItemType::CopperWire, amount: 2 });
    inputs.push(RecipeInput { item: ItemType::SiliconWafer, amount: 1 });
    let r = Recipe {
        id: "basic_circuit".to_owned(),
        name: "Basic Circuit".to_owned(),
        inputs,
        output: RecipeOutput { item: ItemType::BasicCircuit, amount: 1 },
        craft_time_ms: 8000,
        tier: 2,
    };
    proof {
        reveal_strlit("iron_plate");
        reveal_strlit("copper_wire");
        reveal_strlit("silicon_wafer");
        reveal_strlit("carbon_fiber");
        reveal_strlit("basic_circuit");
        reveal_strlit("hull_panel");
        reveal_strlit("mining_laser");
        reveal_strlit("thruster");
        assert(("iron_plate"@).len() == 10);
        assert(("copper_wire"@).len() == 11);
        assert(("silicon_wafer"@).len() == 13);
        assert(("carbon_fiber"@).len() == 12);
        assert(("basic_circuit"@).len() == 13);
        assert(("hull_panel"@).len() == 10);
        assert(("mining_laser"@).len() == 12);
        assert(("thruster"@).len() == 8);
        assert(("iron_plate"@)[0] == 'i');
        assert(("copper_wire"@)[0] == 'c');
        assert(("silicon_wafer"@)[0] == 's');
        assert(("carbon_fiber"@)[0] == 'c');
        assert(("basic_circuit"@)[0] == 'b');
        assert(("hull_panel"@)[0] == 'h');
        assert(("mining_laser"@)[0] == 'm');
        assert(("thruster"@)[0] == 't');
        assert(("silicon_wafer"@)[1] == 'i');
        assert(("basic_circuit"@)[1] == 'a');
    }
    r
}

fn recipe_hull_panel() -> (r: Recipe)
    ensures
        r.id@ == "hull_panel"@,
        recipe_entry_wf(r),
        r.inputs@.len() == 2,
        r.inputs@[0].item == ItemType::IronPlate && r.inputs@[0].amount == 3,
        r.inputs@[1].item == ItemType::CarbonFiber && r.inputs@[1].amount == 1,
        r.output.item == ItemType::HullPanel,
        r.output.amount == 1,
{
    let mut inputs: Vec<RecipeInput> = Vec::new();
    inputs.push(RecipeInput { item: ItemType::IronPlate, amount: 3 });
    inputs.push(RecipeInput { item: ItemType::CarbonFiber, amount: 1 });
    let r = Recipe {
        id: "hull_panel".to_owned(),
        name: "Hull Panel".to_owned(),
        inputs,
        output: RecipeOutput { item: ItemType::HullPanel, amount: 1 },
        craft_time_ms: 10000,
        tier: 2,
    };
    proof {
        reveal_strlit("iron_plate");
        reveal_strlit("copper_wire");
        reveal_strlit("silicon_wafer");
        reveal_strlit("carbon_fiber");
        reveal_strlit("basic_circuit");
        reveal_strlit("hull_panel");
        reveal_strlit("mining_laser");
        reveal_strlit("thruster");
        assert(("iron_plate"@).len() == 10);
        assert(("copper_wire"@).len() == 11);
        assert(("silicon_wafer"@).len() == 13);
        assert(("carbon_fiber"@).len() == 12);
        assert(("basic_circuit"@).len() == 13);
        assert(("hull_panel"@).len() == 10);
        assert(("mining_laser"@).len() == 12);
        assert(("thruster"@).len() == 8);
        assert(("iron_plate"@)[0] == 'i');
        assert(("copper_wire"@)[0] == 'c');
        assert(("silicon_wafer"@)[0] == 's');
        assert(("carbon_fiber"@)[0] == 'c');
        assert(("basic_circuit"@)[0] == 'b');
        assert(("hull_panel"@)[0] == 'h');
        assert(("mining_laser"@)[0] == 'm');
        assert(("thruster"@)[0] == 't');
        assert(("silicon_wafer"@)[1] == 'i');
        assert(("basic_circuit"@)[1] == 'a');
    }
    r
}

fn recipe_mining_laser() -> (r: Recipe)
    ensures
        r.id@ == "mining_laser"@,
        recipe_entry_wf(r),
        r.inputs@.len() == 2,
        r.inputs@[0].item == ItemType::BasicCircuit && r.inputs@[0].amount == 2,
        r.inputs@[1].item == ItemType::HullPanel && r.inputs@[1].amount == 1,
        r.output.item == ItemType::MiningLaser,
        r.output.amount == 1,
{
    let mut inputs: Vec<RecipeInput> = Vec::new();
    inputs.push(RecipeInput { item: ItemType::BasicCircuit, amount: 2 });
    inputs.push(RecipeInput { item: ItemType::HullPanel, amount: 1 });
    let r = Recipe {
        id: "mining_laser".to_owned(),
        name: "Mining Laser Mk1".to_owned(),
        inputs,
        output: RecipeOutput { item: ItemType::MiningLaser, amount: 1 },
        craft_time_ms: 15000,
        tier: 3,
    };
    proof {
        reveal_strlit("iron_plate");
        reveal_strlit("copper_wire");
        reveal_strlit("silicon_wafer");
        reveal_strlit("carbon_fiber");
        reveal_strlit("basic_circuit");
        reveal_strlit("hull_panel");
        reveal_strlit("mining_laser");
        reveal_strlit("thruster");
        assert(("iron_plate"@).len() == 10);
        assert(("copper_wire"@).len() == 11);
        assert(("silicon_wafer"@).len() == 13);
        assert(("carbon_fiber"@).len() == 12);
        assert(("basic_circuit"@).len() == 13);
        assert(("hull_panel"@).len() == 10);
        assert(("mining_laser"@).len() == 12);
        assert(("thruster"@).len() == 8);
        assert(("iron_plate"@)[0] == 'i');
        assert(("copper_wire"@)[0] == 'c');
        assert(("silicon_wafer"@)[0] == 's');
        assert(("carbon_fiber"@)[0] == 'c');
        assert(("basic_circuit"@)[0] == 'b');
        assert(("hull_panel"@)[0] == 'h');
        assert(("mining_laser"@)[0] == 'm');
        assert(("thruster"@)[0] == 't');
        assert(("silicon_wafer"@)[1] == 'i');
        assert(("basic_circuit"@)[1] == 'a');
    }
    r
}

fn recipe_thruster() -> (r: Recipe)
    ensures
        r.id@ == "thruster"@,
        recipe_entry_wf(r),
        r.inputs@.len() == 2,
        r.inputs@[0].item == ItemType::HullPanel && r.inputs@[0].amount == 2,
        r.inputs@[1].item == ItemType::BasicCircuit && r.inputs@[1].amount == 1,
        r.output.item == ItemType::Thruster,
        r.output.amount == 1,
{
    let mut inputs: Vec<RecipeInput> = Vec::new();
    inputs.push(RecipeInput { item: ItemType::HullPanel, amount: 2 });
    inputs.push(RecipeInput { item: ItemType::BasicCircuit, amount: 1 });
    let r = Recipe {
        id: "thruster".to_owned(),
        name: "Thruster Mk1".to_owned(),
        inputs,
        output: RecipeOutput { item: ItemType::Thruster, amount: 1 },
        craft_time_ms: 15000,
        tier: 3,
    };
    proof {
        reveal_strlit("iron_plate");
        reveal_strlit("copper_wire");
        reveal_strlit("silicon_wafer");
        reveal_strlit("carbon_fiber");
        reveal_strlit("basic_circuit");
        reveal_strlit("hull_panel");
        reveal_strlit("mining_laser");
        reveal_strlit("thruster");
        assert(("iron_plate"@).len() == 10);
        assert(("copper_wire"@).len() == 11);
        assert(("silicon_wafer"@).len() == 13);
        assert(("carbon_fiber"@).len() == 12);
        assert(("basic_circuit"@).len() == 13);
        assert(("hull_panel"@).len() == 10);
        assert(("mining_laser"@).len() == 12);
        assert(("thruster"@).len() == 8);
        assert(("iron_plate"@)[0] == 'i');
        assert(("copper_wire"@)[0] == 'c');
        assert(("silicon_wafer"@)[0] == 's');
        assert(("carbon_fiber"@)[0] == 'c');
        assert(("basic_circuit"@)[0] == 'b');
        assert(("hull_panel"@)[0] == 'h');
        assert(("mining_laser"@)[0] == 'm');
        assert(("thruster"@)[0] == 't');
        assert(("silicon_wafer"@)[1] == 'i');
        assert(("basic_circuit"@)[1] == 'a');
    }
    r
}

/// The full recipe table, in a fixed order.
pub fn all_recipes() -> (r: Vec<Recipe>)
    ensures
        r@.len() == 8,
        forall|i: int| 0 <= i < r@.len() ==> recipe_entry_wf(#[trigger] r@[i]),
        r@[0].id@ == "iron_plate"@,
        r@[1].id@ == "copper_wire"@,
        r@[2].id@ == "silicon_wafer"@,
        r@[3].id@ == "carbon_fiber"@,
        r@[4].id@ == "basic_circuit"@,
        r@[5].id@ == "hull_panel"@,
        r@[6].id@ == "mining_laser"@,
        r@[7].id@ == "thruster"@,
        forall|i: int|
            0 <= i < r@.len() ==> (#[trigger] r@[i]).inputs@ == spec_recipe_inputs(r@[i].id@),
        forall|i: int|
            0 <= i < r@.len() ==> (#[trigger] r@[i]).output == spec_recipe_output(r@[i].id@),
{
    let mut out: Vec<Recipe> = Vec::new();
    out.push(recipe_iron_plate());
    out.push(recipe_copper_wire());
    out.push(recipe_silicon_wafer());
    out.push(recipe_carbon_fiber());
    out.push(recipe_basic_circuit());
    out.push(recipe_hull_panel());
    out.push(recipe_mining_laser());
    out.push(recipe_thruster());
    proof {
        reveal_strlit("iron_plate");
        reveal_strlit("copper_wire");
        reveal_strlit("silicon_wafer");
        reveal_strlit("carbon_fiber");
        reveal_strlit("basic_circuit");
        reveal_strlit("hull_panel");
        reveal_strlit("mining_laser");
        reveal_strlit("thruster");
        assert(("iron_plate"@).len() == 10);
        assert(("copper_wire"@).len() == 11);
        assert(("silicon_wafer"@).len() == 13);
        assert(("carbon_fiber"@).len() == 12);
        assert(("basic_circuit"@).len() == 13);
        assert(("hull_panel"@).len() == 10);
        assert(("mining_laser"@).len() == 12);
        assert(("thruster"@).len() == 8);
        assert(("iron_plate"@)[0] == 'i');
        assert(("hull_panel"@)[0] == 'h');
        assert(("silicon_wafer"@)[0] == 's');
        assert(("basic_circuit"@)[0] == 'b');
        assert(("carbon_fiber"@)[0] == 'c');
        assert(("mining_laser"@)[0] == 'm');
        assert(out@[0].inputs@ =~= spec_recipe_inputs(out@[0].id@));
        assert(out@[1].inputs@ =~= spec_recipe_inputs(out@[1].id@));
        assert(out@[2].inputs@ =~= spec_recipe_inputs(out@[2].id@));
        assert(out@[3].inputs@ =~= spec_recipe_inputs(out@[3].id@));
        assert(out@[4].inputs@ =~= spec_recipe_inputs(out@[4].id@));
        assert(out@[5].inputs@ =~= spec_recipe_inputs(out@[5].id@));
        assert(out@[6].inputs@ =~= spec_recipe_inputs(out@[6].id@));
        assert(out@[7].inputs@ =~= spec_recipe_inputs(out@[7].id@));
        assert(forall|i: int|
            0 <= i < out@.len() ==> (#[trigger] out@[i]).output == spec_recipe_output(
                out@[i].id@,
            ));
    }
    out
}

/// Look a recipe up by id; succeeds exactly for known ids.
pub fn get_recipe(recipe_id: &str) -> (r: Option<Recipe>)
    ensures
        r is Some <==> recipe_known(recipe_id@),
        r is Some ==> r->0.id@ == recipe_id@ && recipe_entry_wf(r->0),
        r is Some ==> r->0.inputs@ == spec_recipe_inputs(recipe_id@),
        r is Some ==> r->0.output == spec_recipe_output(recipe_id@),
{
    let recipes = all_recipes();
    let n = recipes.len();
    for i in 0..n
        invariant
            n == recipes@.len(),
            forall|j: int| 0 <= j < i ==> (#[trigger] recipes@[j]).id@ != recipe_id@,
            forall|j: int| 0 <= j < recipes@.len() ==> recipe_entry_wf(#[trigger] recipes@[j]),
            forall|j: int|
                0 <= j < recipes@.len() ==> (#[trigger] recipes@[j]).inputs@ == spec_recipe_inputs(
                    recipes@[j].id@,
                ),
            forall|j: int|
                0 <= j < recipes@.len() ==> (#[trigger] recipes@[j]).output == spec_recipe_output(
                    recipes@[j].id@,
                ),
    {
        if str_eq(recipes[i].id.as_str(), recipe_id) {
            let q = clone_recipe(&recipes[i]);
            return Some(q);
        }
    }
    None
}

fn clone_recipe(r: &Recipe) -> (c: Recipe)
    ensures
        c.id == r.id,
        c.name == r.name,
        c.inputs@ == r.inputs@,
        c.output == r.output,
        c.craft_time_ms == r.craft_time_ms,
        c.tier == r.tier,
        recipe_entry_wf(*r) ==> recipe_entry_wf(c),
{
    let mut inputs: Vec<RecipeInput> = Vec::new();
    let n = r.inputs.len();
    for i in 0..n
        invariant
            n == r.inputs@.len(),
            inputs@.len() == i,
            forall|t: int| 0 <= t < i ==> #[trigger] inputs@[t] == r.inputs@[t],
    {
        inputs.push(RecipeInput { item: r.inputs[i].item, amount: r.inputs[i].amount });
    }
    proof {
        assert(inputs@ =~= r.inputs@);
    }
    Recipe {
        id: r.id.clone(),
        name: r.name.clone(),
        inputs,
        output: RecipeOutput { item: r.output.item, amount: r.output.amount },
        craft_time_ms: r.craft_time_ms,
        tier: r.tier,
    }
}


#[derive(Clone, Copy, PartialEq, Eq, Structural, Debug)]
pub enum CraftJobStatus {
    Pending,
    Crafting,
    Complete,
    Failed,
}

pub struct CraftJob {
    pub job_id: u64,
    pub recipe_id: String,
    /// When crafting started, milliseconds.
    pub start_time_ms: u64,
    /// When crafting finishes, milliseconds.
    pub end_time_ms: u64,
    pub status: CraftJobStatus,
}

impl Clone for CraftJob {
    fn clone(&self) -> (r: Self)
        ensures
            r == *self,
    {
        CraftJob {
            job_id: self.job_id,
            recipe_id: self.recipe_id.clone(),
            start_time_ms: self.start_time_ms,
            end_time_ms: self.end_time_ms,
            status: self.status,
        }
    }
}

/// Whether a job still occupies a queue slot.
pub open spec fn job_active(j: CraftJob) -> bool {
    j.status is Pending || j.status is Crafting
}

/// Pruning keeps the active jobs and hands the finished ones out, each
/// side in queue order.
pub open spec fn spec_prune_match(q: Seq<CraftJob>, kept: Seq<CraftJob>, out: Seq<CraftJob>) -> bool
    decreases q.len(),
{
    if q.len() == 0 {
        kept.len() == 0 && out.len() == 0
    } else if job_active(q[0]) {
        &&& kept.len() >= 1
        &&& kept[0] == q[0]
        &&& spec_prune_match(q.drop_first(), kept.drop_first(), out)
    } else {
        &&& out.len() >= 1
        &&& out[0] == q[0]
        &&& spec_prune_match(q.drop_first(), kept, out.drop_first())
    }
}

proof fn lemma_prune_push_active(q: Seq<CraftJob>, kept: Seq<CraftJob>, out: Seq<CraftJob>, j: CraftJob)
    requires
        spec_prune_match(q, kept, out),
        job_active(j),
    ensures
        spec_prune_match(q.push(j), kept.push(j), out),
    decreases q.len(),
{
    if q.len() == 0 {
        assert(q.push(j)[0] == j);
        assert(kept.push(j)[0] == j);
        assert(q.push(j).drop_first() =~= Seq::<CraftJob>::empty());
        assert(kept.push(j).drop_first() =~= Seq::<CraftJob>::empty());
        assert(spec_prune_match(Seq::<CraftJob>::empty(), Seq::<CraftJob>::empty(), out));
    } else {
        assert(q.push(j).drop_first() =~= q.drop_first().push(j));
        assert(q.push(j)[0] == q[0]);
        if job_active(q[0]) {
            assert(kept.push(j)[0] == kept[0]);
            assert(kept.push(j).drop_first() =~= kept.drop_first().push(j));
            lemma_prune_push_active(q.drop_first(), kept.drop_first(), out, j);
        } else {
            lemma_prune_push_active(q.drop_first(), kept, out.drop_first(), j);
        }
    }
}

proof fn lemma_prune_push_finished(q: Seq<CraftJob>, kept: Seq<CraftJob>, out: Seq<CraftJob>, j: CraftJob)
    requires
        spec_prune_match(q, kept, out),
        !job_active(j),
    ensures
        spec_prune_match(q.push(j), kept, out.push(j)),
    decreases q.len(),
{
    if q.len() == 0 {
        assert(q.push(j)[0] == j);
        assert(out.push(j)[0] == j);
        assert(q.push(j).drop_first() =~= Seq::<CraftJob>::empty());
        assert(out.push(j).drop_first() =~= Seq::<CraftJob>::empty());
        assert(spec_prune_match(Seq::<CraftJob>::empty(), kept, Seq::<CraftJob>::empty()));
    } else {
        assert(q.push(j).drop_first() =~= q.drop_first().push(j));
        assert(q.push(j)[0] == q[0]);
        if job_active(q[0]) {
            lemma_prune_push_finished(q.drop_first(), kept.drop_first(), out, j);
        } else {
            assert(out.push(j)[0] == out[0]);
            assert(out.push(j).drop_first() =~= out.drop_first().push(j));
            lemma_prune_push_finished(q.drop_first(), kept, out.drop_first(), j);
        }
    }
}

/// Number of active jobs in a sequence.
pub open spec fn count_active(s: Seq<CraftJob>) -> nat
    decreases s.len(),
{
    if s.len() == 0 {
        0
    } else {
        ((if job_active(s[0]) {
            1nat
        } else {
            0nat
        }) + count_active(s.subrange(1, s.len() as int))) as nat
    }
}

pub const MAX_CONCURRENT_JOBS: usize = 3;

/// Per-player crafting queue with a cap on concurrently active jobs.
pub struct CraftingQueue {
    pub player_id: u32,
    pub jobs: Vec<CraftJob>,
    pub next_job_id: u64,
}

proof fn lemma_count_active_push(s: Seq<CraftJob>, j: CraftJob)
    ensures
        count_active(s.push(j)) == count_active(s) + (if job_active(j) {
            1nat
        } else {
            0nat
        }),
    decreases s.len(),
{
    let t = s.push(j);
    assert(t[0] == if s.len() == 0 { j } else { s[0] });
    if s.len() == 0 {
        assert(t.subrange(1, t.len() as int) =~= Seq::<CraftJob>::empty());
        assert(count_active(t.subrange(1, t.len() as int)) == 0);
    } else {
        assert(t.subrange(1, t.len() as int) =~= s.subrange(1, s.len() as int).push(j));
        lemma_count_active_push(s.subrange(1, s.len() as int), j);
    }
}

proof fn lemma_count_active_update(s: Seq<CraftJob>, i: int, j: CraftJob)
    requires
        0 <= i < s.len(),
    ensures
        count_active(s.update(i, j)) == count_active(s) - (if job_active(s[i]) {
            1nat
        } else {
            0nat
        }) + (if job_active(j) {
            1nat
        } else {
            0nat
        }),
    decreases s.len(),
{
    let t = s.update(i, j);
    if i == 0 {
        assert(t.subrange(1, t.len() as int) =~= s.subrange(1, s.len() as int));
    } else {
        assert(t[0] == s[0]);
        assert(t.subrange(1, t.len() as int) =~= s.subrange(1, s.len() as int).update(i - 1, j));
        lemma_count_active_update(s.subrange(1, s.len() as int), i - 1, j);
    }
}

impl CraftingQueue {
    pub fn new(player_id: u32) -> (r: Self)
        ensures
            r.player_id == player_id,
            r.jobs@.len() == 0,
            count_active(r.jobs@) == 0,
    {
        CraftingQueue { player_id, jobs: Vec::new(), next_job_id: 1 }
    }

    /// Number of active (pending or crafting) slots in use.
    pub fn active_count(&self) -> (r: usize)
        ensures
            r == count_active(self.jobs@),
    {
        let mut acc: usize = 0;
        let n = self.jobs.len();
        let ghost s = self.jobs@;
        proof {
            assert(s.subrange(0, s.len() as int) =~= s);
        }
        for i in 0..n
            invariant
                n == s.len(),
                s == self.jobs@,
                acc + count_active(s.subrange(i as int, s.len() as int)) == count_active(s),
                acc <= i,
        {
            proof {
                assert(s.subrange(i as int, s.len() as int)[0] == s[i as int]);
                assert(s.subrange(i as int, s.len() as int).subrange(
                    1,
                    s.subrange(i as int, s.len() as int).len() as int,
                ) =~= s.subrange(i + 1, s.len() as int));
            }
            let active = match self.jobs[i].status {
                CraftJobStatus::Pending => true,
                CraftJobStatus::Crafting => true,
                _ => false,
            };
            if active {
                acc = acc + 1;
            }
        }
        proof {
            assert(s.subrange(s.len() as int, s.len() as int) =~= Seq::<CraftJob>::empty());
        }
        acc
    }

    /// Whether the queue can take another job.
    pub fn has_room(&self) -> (r: bool)
        ensures
            r == (count_active(self.jobs@) < MAX_CONCURRENT_JOBS),
    {
        self.active_count() < MAX_CONCURRENT_JOBS
    }

    /// Append a job.
    pub fn add_job(&mut self, job: CraftJob)
        ensures
            final(self).jobs@ == old(self).jobs@.push(job),
            final(self).player_id == old(self).player_id,
            final(self).next_job_id == old(self).next_job_id,
            count_active(final(self).jobs@) == count_active(old(self).jobs@) + (if job_active(job) {
                1nat
            } else {
                0nat
            }),
    {
        proof {
            lemma_count_active_push(self.jobs@, job);
        }
        self.jobs.push(job);
    }

    /// Clones of the active jobs, in order.
    pub fn get_active_jobs(&self) -> (r: Vec<CraftJob>)
        ensures
            r@.len() == count_active(self.jobs@),
            forall|i: int| 0 <= i < r@.len() ==> job_active(#[trigger] r@[i]),
    {
        let mut r: Vec<CraftJob> = Vec::new();
        let n = self.jobs.len();
        let ghost s = self.jobs@;
        proof {
            assert(s.subrange(0, s.len() as int) =~= s);
        }
        for i in 0..n
            invariant
                n == s.len(),
                s == self.jobs@,
                r@.len() + count_active(s.subrange(i as int, s.len() as int)) == count_active(s),
                forall|t: int| 0 <= t < r@.len() ==> job_active(#[trigger] r@[t]),
        {
            proof {
                assert(s.subrange(i as int, s.len() as int)[0] == s[i as int]);
                assert(s.subrange(i as int, s.len() as int).subrange(
                    1,
                    s.subrange(i as int, s.len() as int).len() as int,
                ) =~= s.subrange(i + 1, s.len() as int));
            }
            let active = match self.jobs[i].status {
                CraftJobStatus::Pending => true,
                CraftJobStatus::Crafting => true,
                _ => false,
            };
            if active {
                r.push(self.jobs[i].clone());
            }
        }
        proof {
            assert(s.subrange(s.len() as int, s.len() as int) =~= Seq::<CraftJob>::empty());
        }
        r
    }

    /// All jobs, finished ones included.
    pub fn get_all_jobs(&self) -> (r: &Vec<CraftJob>)
        ensures
            r@ == self.jobs@,
    {
        &self.jobs
    }

    /// Drop and return the finished (complete or failed) jobs.
    pub fn prune_finished(&mut self) -> (r: Vec<CraftJob>)
        ensures
            final(self).player_id == old(self).player_id,
            final(self).next_job_id == old(self).next_job_id,
            forall|i: int|
                0 <= i < final(self).jobs@.len() ==> job_active(#[trigger] final(self).jobs@[i]),
            forall|i: int| 0 <= i < r@.len() ==> !job_active(#[trigger] r@[i]),
            final(self).jobs@.len() + r@.len() == old(self).jobs@.len(),
            count_active(final(self).jobs@) == count_active(old(self).jobs@),
            // Both sides keep the queue's order.
            spec_prune_match(old(self).jobs@, final(self).jobs@, r@),
    {
        let mut finished: Vec<CraftJob> = Vec::new();
        let mut remaining: Vec<CraftJob> = Vec::new();
        let n = self.jobs.len();
        let ghost s = self.jobs@;
        proof {
            assert(s.subrange(0, s.len() as int) =~= s);
        }
        for i in 0..n
            invariant
                n == s.len(),
                s == self.jobs@,
                remaining@.len() + finished@.len() == i,
                forall|t: int| 0 <= t < remaining@.len() ==> job_active(#[trigger] remaining@[t]),
                forall|t: int| 0 <= t < finished@.len() ==> !job_active(#[trigger] finished@[t]),
                spec_prune_match(s.take(i as int), remaining@, finished@),
                count_active(remaining@) + count_active(s.subrange(i as int, s.len() as int))
                    == count_active(s),
        {
            proof {
                assert(s.take(i as int + 1) =~= s.take(i as int).push(s[i as int]));
            }
            proof {
                assert(s.subrange(i as int, s.len() as int)[0] == s[i as int]);
                assert(s.subrange(i as int, s.len() as int).subrange(
                    1,
                    s.subrange(i as int, s.len() as int).len() as int,
                ) =~= s.subrange(i + 1, s.len() as int));
            }
            let active = match self.jobs[i].status {
                CraftJobStatus::Pending => true,
                CraftJobStatus::Crafting => true,
                _ => false,
            };
            if active {
                proof {
                    lemma_count_active_push(remaining@, s[i as int]);
                    lemma_prune_push_active(s.take(i as int), remaining@, finished@, s[i as int]);
                }
                remaining.push(self.jobs[i].clone());
            } else {
                proof {
                    lemma_prune_push_finished(s.take(i as int), remaining@, finished@, s[i as int]);
                }
                finished.push(self.jobs[i].clone());
            }
        }
        proof {
            assert(s.subrange(s.len() as int, s.len() as int) =~= Seq::<CraftJob>::empty());
            assert(s.take(n as int) =~= s);
        }
        self.jobs = remaining;
        finished
    }
}

pub struct TryCraftResult {
    pub success: bool,
    pub reason: Option<String>,
    pub job: Option<CraftJob>,
}

/// Start a craft: the recipe must exist, the queue must have room, and
/// the inventory must hold every input.  On success the inputs leave the
/// inventory atomically and a crafting job joins the queue.
pub fn try_start_craft(
    inventory: &mut Inventory,
    queue: &mut CraftingQueue,
    recipe_id: &str,
    current_time_ms: u64,
) -> (r: TryCraftResult)
    requires
        old(inventory).wf(),
        current_time_ms + spec_recipe_time_ms(recipe_id@) <= u64::MAX,
    ensures
        final(inventory).wf(),
        r.success == (r.reason is None),
        !r.success ==> *final(inventory) == *old(inventory) && *final(queue) == *old(queue)
            && r.job is None,
        // Success exactly when the recipe exists, the queue has room and
        // every input is held.
        r.success <==> recipe_known(recipe_id@) && count_active(old(queue).jobs@)
            < MAX_CONCURRENT_JOBS && spec_has_inputs(*old(inventory), recipe_id@),
        // Each refusal names its reason.
        !recipe_known(recipe_id@) ==> r.reason is Some && r.reason->0@ == "Unknown recipe"@,
        recipe_known(recipe_id@) && count_active(old(queue).jobs@) >= MAX_CONCURRENT_JOBS
            ==> r.reason is Some && r.reason->0@ == "Crafting queue full (max 3 concurrent jobs)"@,
        recipe_known(recipe_id@) && count_active(old(queue).jobs@) < MAX_CONCURRENT_JOBS
            && !spec_has_inputs(*old(inventory), recipe_id@) ==> r.reason is Some
            && r.reason->0@ == "Insufficient materials for this recipe"@,
        // On success the inputs leave the inventory exactly, and nothing
        // else moves.
        r.success ==> forall|k: int|
            0 <= k < spec_recipe_inputs(recipe_id@).len() ==> final(inventory).spec_get(
                spec_item_key((#[trigger] spec_recipe_inputs(recipe_id@)[k]).item),
            ) == old(inventory).spec_get(spec_item_key(spec_recipe_inputs(recipe_id@)[k].item))
                - spec_recipe_inputs(recipe_id@)[k].amount,
        r.success ==> forall|key: Seq<char>|
            !spec_input_key(recipe_id@, key) ==> #[trigger] final(inventory).spec_get(key) == old(
                inventory,
            ).spec_get(key),
        r.success ==> {
            &&& recipe_known(recipe_id@)
            &&& count_active(old(queue).jobs@) < MAX_CONCURRENT_JOBS
            &&& r.job is Some
            &&& r.job->0.recipe_id@ == recipe_id@
            &&& r.job->0.start_time_ms == current_time_ms
            &&& r.job->0.end_time_ms == current_time_ms + spec_recipe_time_ms(recipe_id@)
            &&& r.job->0.status is Crafting
            &&& r.job->0.job_id == old(queue).next_job_id
            &&& final(queue).jobs@ == old(queue).jobs@.push(r.job->0)
            &&& count_active(final(queue).jobs@) == count_active(old(queue).jobs@) + 1
            &&& final(inventory).omen_balance == old(inventory).omen_balance
            &&& final(inventory).spec_total() <= old(inventory).spec_total()
        },
{
    let recipe = match get_recipe(recipe_id) {
        Some(rc) => rc,
        None => {
            return TryCraftResult {
                success: false,
                reason: Some("Unknown recipe".to_owned()),
                job: None,
            };
        },
    };

    if !queue.has_room() {
        return TryCraftResult {
            success: false,
            reason: Some("Crafting queue full (max 3 concurrent jobs)".to_owned()),
            job: None,
        };
    }

    // Check all inputs are available.
    let ni = recipe.inputs.len();
    for i in 0..ni
        invariant
            *inventory == *old(inventory),
            *queue == *old(queue),
            old(inventory).wf(),
            ni == recipe.inputs@.len(),
            recipe.inputs@ == spec_recipe_inputs(recipe_id@),
            recipe_known(recipe_id@),
            count_active(old(queue).jobs@) < MAX_CONCURRENT_JOBS,
            forall|j: int|
                0 <= j < i ==> old(inventory).spec_get(
                    spec_item_key((#[trigger] recipe.inputs@[j]).item),
                ) >= recipe.inputs@[j].amount,
    {
        let input = &recipe.inputs[i];
        if !inventory.has(input.item.as_str(), input.amount) {
            proof {
                assert(!spec_has_inputs(*old(inventory), recipe_id@));
            }
            return TryCraftResult {
                success: false,
                reason: Some("Insufficient materials for this recipe".to_owned()),
                job: None,
            };
        }
    }

    // Consume the inputs.
    let ghost inv0 = *inventory;
    for i in 0..ni
        invariant
            ni == recipe.inputs@.len(),
            inv0 == *old(inventory),
            recipe.inputs@ == spec_recipe_inputs(recipe_id@),
            recipe_known(recipe_id@),
            count_active(old(queue).jobs@) < MAX_CONCURRENT_JOBS,
            spec_has_inputs(*old(inventory), recipe_id@),
            *queue == *old(queue),
            inventory.wf(),
            inventory.omen_balance == inv0.omen_balance,
            inventory.max_capacity == inv0.max_capacity,
            inventory.spec_total() <= inv0.spec_total(),
            forall|i2: int, j2: int|
                0 <= i2 < j2 < recipe.inputs@.len() ==> (#[trigger] recipe.inputs@[i2]).item != (
                #[trigger] recipe.inputs@[j2]).item,
            forall|j: int|
                i <= j < ni ==> inventory.spec_get(spec_item_key((#[trigger] recipe.inputs@[j]).item))
                    >= recipe.inputs@[j].amount,
            forall|j: int|
                i <= j < ni ==> inventory.spec_get(spec_item_key((#[trigger] recipe.inputs@[j]).item))
                    == inv0.spec_get(spec_item_key(recipe.inputs@[j].item)),
            forall|j: int|
                0 <= j < i ==> inventory.spec_get(spec_item_key((#[trigger] recipe.inputs@[j]).item))
                    == inv0.spec_get(spec_item_key(recipe.inputs@[j].item))
                    - recipe.inputs@[j].amount,
            forall|key: Seq<char>|
                !spec_input_key(recipe_id@, key) ==> #[trigger] inventory.spec_get(key)
                    == inv0.spec_get(key),
            forall|j: int| 0 <= j < ni ==> (#[trigger] recipe.inputs@[j]).amount > 0,
    {
        let input = &recipe.inputs[i];
        let removed = inventory.remove(input.item.as_str(), input.amount);
        proof {
            assert(removed);
            assert forall|j: int| 0 <= j < ni && j != i implies spec_item_key(
                (#[trigger] recipe.inputs@[j]).item,
            ) != spec_item_key(recipe.inputs@[i as int].item) by {
                lemma_item_keys_distinct(recipe.inputs@[j].item, recipe.inputs@[i as int].item);
            }
            assert(spec_input_key(recipe_id@, spec_item_key(recipe.inputs@[i as int].item)));
            assert forall|j: int| i + 1 <= j < ni implies inventory.spec_get(
                spec_item_key((#[trigger] recipe.inputs@[j]).item),
            ) >= recipe.inputs@[j].amount by {
                assert(recipe.inputs@[j].item != recipe.inputs@[i as int].item);
                assert(spec_item_key(recipe.inputs@[j].item) != spec_item_key(
                    recipe.inputs@[i as int].item,
                )) by {
                    lemma_item_keys_distinct(recipe.inputs@[j].item, recipe.inputs@[i as int].item);
                }
            }
        }
    }

    let job = CraftJob {
        job_id: queue.next_job_id,
        recipe_id: recipe_id.to_owned(),
        start_time_ms: current_time_ms,
        end_time_ms: current_time_ms + recipe.craft_time_ms,
        status: CraftJobStatus::Crafting,
    };
    queue.next_job_id = queue.next_job_id.wrapping_add(1);
    let job_copy = job.clone();
    queue.add_job(job);

    TryCraftResult { success: true, reason: None, job: Some(job_copy) }
}

/// Distinct item kinds have distinct inventory keys.
proof fn lemma_item_keys_distinct(a: ItemType, b: ItemType)
    requires
        a != b,
    ensures
        spec_item_key(a) != spec_item_key(b),
{
    reveal_strlit("iron");
    reveal_strlit("copper");
    reveal_strlit("silicon");
    reveal_strlit("carbon");
    reveal_strlit("titanium");
    reveal_strlit("iron_plate");
    reveal_strlit("copper_wire");
    reveal_strlit("silicon_wafer");
    reveal_strlit("carbon_fiber");
    reveal_strlit("basic_circuit");
    reveal_strlit("hull_panel");
    reveal_strlit("mining_laser");
    reveal_strlit("thruster");
    assert(("iron"@).len() == 4);
    assert(("copper"@).len() == 6);
    assert(("silicon"@).len() == 7);
    assert(("carbon"@).len() == 6);
    assert(("titanium"@).len() == 8);
    assert(("iron_plate"@).len() == 10);
    assert(("copper_wire"@).len() == 11);
    assert(("silicon_wafer"@).len() == 13);
    assert(("carbon_fiber"@).len() == 12);
    assert(("basic_circuit"@).len() == 13);
    assert(("hull_panel"@).len() == 10);
    assert(("mining_laser"@).len() == 12);
    assert(("thruster"@).len() == 8);
    assert(("copper"@)[1] == 'o');
    assert(("carbon"@)[1] == 'a');
    assert(("silicon_wafer"@)[1] == 'i');
    assert(("basic_circuit"@)[1] == 'a');
    assert(("iron_plate"@)[1] == 'r');
    assert(("hull_panel"@)[1] == 'u');
    assert(("carbon_fiber"@)[1] == 'a');
    assert(("mining_laser"@)[1] == 'i');
    assert(("titanium"@)[1] == 'i');
    assert(("thruster"@)[1] == 'h');
}

/// Whether a job is active and has come due.
pub open spec fn spec_job_due(j: CraftJob, now: u64) -> bool {
    job_active(j) && j.end_time_ms <= now
}

/// Sum of the amounts that the added reports delivered.
pub open spec fn spec_added_total(rs: Seq<CompletedCraft>) -> int
    decreases rs.len(),
{
    if rs.len() == 0 {
        0
    } else {
        (if rs[0].added {
            rs[0].output_amount as int
        } else {
            0
        }) + spec_added_total(rs.drop_first())
    }
}

/// Amount the added reports delivered to one inventory key.
pub open spec fn spec_added_to(rs: Seq<CompletedCraft>, key: Seq<char>) -> int
    decreases rs.len(),
{
    if rs.len() == 0 {
        0
    } else {
        spec_added_to(rs.drop_last(), key) + (if rs.last().added && rs.last().output_item
            is Some && spec_item_key(rs.last().output_item->0) == key {
            rs.last().output_amount as int
        } else {
            0
        })
    }
}

/// One tick's trace: each due job in order yields one report carrying
/// the job's identity; a known recipe's report names the table output
/// and succeeds exactly when the output fits the running total; jobs
/// not due yield nothing.
pub open spec fn spec_craft_run(
    jobs: Seq<CraftJob>,
    reports: Seq<CompletedCraft>,
    total: int,
    cap: int,
    now: u64,
) -> bool
    decreases jobs.len(),
{
    if jobs.len() == 0 {
        reports.len() == 0
    } else if spec_job_due(jobs[0], now) {
        &&& reports.len() >= 1
        &&& reports[0].job.job_id == jobs[0].job_id
        &&& reports[0].job.recipe_id@ == jobs[0].recipe_id@
        &&& reports[0].job.end_time_ms == jobs[0].end_time_ms
        &&& (reports[0].job.status is Complete <==> reports[0].added)
        &&& (reports[0].job.status is Complete || reports[0].job.status is Failed)
        &&& (recipe_known(jobs[0].recipe_id@) ==> {
            let out = spec_recipe_output(jobs[0].recipe_id@);
            &&& reports[0].output_item == Some(out.item)
            &&& reports[0].output_amount == out.amount
            &&& (reports[0].added <==> total + out.amount <= cap)
        })
        &&& (!recipe_known(jobs[0].recipe_id@) ==> !reports[0].added)
        &&& spec_craft_run(
            jobs.drop_first(),
            reports.drop_first(),
            total + (if reports[0].added {
                reports[0].output_amount as int
            } else {
                0
            }),
            cap,
            now,
        )
    } else {
        spec_craft_run(jobs.drop_first(), reports, total, cap, now)
    }
}

proof fn lemma_added_total_push(rs: Seq<CompletedCraft>, r: CompletedCraft)
    ensures
        spec_added_total(rs.push(r)) == spec_added_total(rs) + (if r.added {
            r.output_amount as int
        } else {
            0
        }),
    decreases rs.len(),
{
    if rs.len() == 0 {
        assert(rs.push(r)[0] == r);
        assert(rs.push(r).drop_first() =~= Seq::<CompletedCraft>::empty());
        assert(spec_added_total(Seq::<CompletedCraft>::empty()) == 0);
    } else {
        assert(rs.push(r).drop_first() =~= rs.drop_first().push(r));
        assert(rs.push(r)[0] == rs[0]);
        lemma_added_total_push(rs.drop_first(), r);
    }
}

proof fn lemma_craft_run_push_skip(
    jobs: Seq<CraftJob>,
    reports: Seq<CompletedCraft>,
    j: CraftJob,
    total: int,
    cap: int,
    now: u64,
)
    requires
        spec_craft_run(jobs, reports, total, cap, now),
        !spec_job_due(j, now),
    ensures
        spec_craft_run(jobs.push(j), reports, total, cap, now),
    decreases jobs.len(),
{
    if jobs.len() == 0 {
        assert(jobs.push(j)[0] == j);
        assert(jobs.push(j).drop_first() =~= Seq::<CraftJob>::empty());
        assert(spec_craft_run(Seq::<CraftJob>::empty(), reports, total, cap, now));
    } else {
        assert(jobs.push(j).drop_first() =~= jobs.drop_first().push(j));
        assert(jobs.push(j)[0] == jobs[0]);
        if spec_job_due(jobs[0], now) {
            lemma_craft_run_push_skip(
                jobs.drop_first(),
                reports.drop_first(),
                j,
                total + (if reports[0].added {
                    reports[0].output_amount as int
                } else {
                    0
                }),
                cap,
                now,
            );
        } else {
            lemma_craft_run_push_skip(jobs.drop_first(), reports, j, total, cap, now);
        }
    }
}

proof fn lemma_craft_run_push_due(
    jobs: Seq<CraftJob>,
    reports: Seq<CompletedCraft>,
    j: CraftJob,
    r: CompletedCraft,
    total: int,
    cap: int,
    now: u64,
)
    requires
        spec_craft_run(jobs, reports, total, cap, now),
        spec_job_due(j, now),
        r.job.job_id == j.job_id,
        r.job.recipe_id@ == j.recipe_id@,
        r.job.end_time_ms == j.end_time_ms,
        r.job.status is Complete <==> r.added,
        r.job.status is Complete || r.job.status is Failed,
        recipe_known(j.recipe_id@) ==> {
            let out = spec_recipe_output(j.recipe_id@);
            &&& r.output_item == Some(out.item)
            &&& r.output_amount == out.amount
            &&& (r.added <==> total + spec_added_total(reports) + out.amount <= cap)
        },
        !recipe_known(j.recipe_id@) ==> !r.added,
    ensures
        spec_craft_run(jobs.push(j), reports.push(r), total, cap, now),
    decreases jobs.len(),
{
    if jobs.len() == 0 {
        assert(reports.len() == 0);
        assert(spec_added_total(reports) == 0);
        assert(jobs.push(j)[0] == j);
        assert(reports.push(r)[0] == r);
        assert(jobs.push(j).drop_first() =~= Seq::<CraftJob>::empty());
        assert(reports.push(r).drop_first() =~= Seq::<CompletedCraft>::empty());
        assert(spec_craft_run(
            Seq::<CraftJob>::empty(),
            Seq::<CompletedCraft>::empty(),
            total + (if r.added {
                r.output_amount as int
            } else {
                0
            }),
            cap,
            now,
        ));
    } else {
        assert(jobs.push(j).drop_first() =~= jobs.drop_first().push(j));
        assert(jobs.push(j)[0] == jobs[0]);
        if spec_job_due(jobs[0], now) {
            assert(reports.push(r)[0] == reports[0]);
            assert(reports.push(r).drop_first() =~= reports.drop_first().push(r));
            assert(spec_added_total(reports) == (if reports[0].added {
                reports[0].output_amount as int
            } else {
                0
            }) + spec_added_total(reports.drop_first()));
            lemma_craft_run_push_due(
                jobs.drop_first(),
                reports.drop_first(),
                j,
                r,
                total + (if reports[0].added {
                    reports[0].output_amount as int
                } else {
                    0
                }),
                cap,
                now,
            );
        } else {
            lemma_craft_run_push_due(jobs.drop_first(), reports, j, r, total, cap, now);
        }
    }
}

/// One job that finished during a tick, and whether its output was added.
pub struct CompletedCraft {
    pub job: CraftJob,
    pub output_item: Option<ItemType>,
    pub output_amount: u32,
    pub added: bool,
}

/// Advance the crafting queue to `current_time_ms`: every active job whose
/// end time has passed completes, adding its output to the inventory, or
/// fails when the output does not fit.  Returns the jobs that finished
/// this tick.
pub fn process_crafting_tick(
    queue: &mut CraftingQueue,
    current_time_ms: u64,
    inventory: &mut Inventory,
) -> (completed: Vec<CompletedCraft>)
    requires
        old(inventory).wf(),
    ensures
        final(inventory).wf(),
        final(inventory).omen_balance == old(inventory).omen_balance,
        final(inventory).max_capacity == old(inventory).max_capacity,
        final(queue).player_id == old(queue).player_id,
        final(queue).jobs@.len() == old(queue).jobs@.len(),
        // Jobs change status exactly when they are active and due.
        forall|i: int|
            0 <= i < old(queue).jobs@.len() ==> {
                let jo = #[trigger] old(queue).jobs@[i];
                let jn = final(queue).jobs@[i];
                &&& jn.job_id == jo.job_id
                &&& jn.recipe_id == jo.recipe_id
                &&& jn.start_time_ms == jo.start_time_ms
                &&& jn.end_time_ms == jo.end_time_ms
                &&& (if job_active(jo) && jo.end_time_ms <= current_time_ms {
                    jn.status is Complete || jn.status is Failed
                } else {
                    jn.status == jo.status
                })
            },
        // Every reported completion was an active job that came due.
        forall|k: int|
            0 <= k < completed@.len() ==> !job_active((#[trigger] completed@[k]).job)
                && completed@[k].job.end_time_ms <= current_time_ms,
        // One report per due job, in order; a known recipe's report
        // names the table output and completes exactly when it fits.
        spec_craft_run(
            old(queue).jobs@,
            completed@,
            old(inventory).spec_total() as int,
            old(inventory).max_capacity as int,
            current_time_ms,
        ),
        // The inventory gains exactly what the added reports delivered.
        forall|key: Seq<char>|
            #[trigger] final(inventory).spec_get(key) == old(inventory).spec_get(key)
                + spec_added_to(completed@, key),
        final(inventory).spec_total() == old(inventory).spec_total() + spec_added_total(
            completed@,
        ),
{
    let mut completed: Vec<CompletedCraft> = Vec::new();
    let n = queue.jobs.len();
    for i in 0..n
        invariant
            n == queue.jobs@.len(),
            n == old(queue).jobs@.len(),
            inventory.wf(),
            inventory.omen_balance == old(inventory).omen_balance,
            inventory.max_capacity == old(inventory).max_capacity,
            spec_craft_run(
                old(queue).jobs@.take(i as int),
                completed@,
                old(inventory).spec_total() as int,
                old(inventory).max_capacity as int,
                current_time_ms,
            ),
            forall|key: Seq<char>|
                #[trigger] inventory.spec_get(key) == old(inventory).spec_get(key)
                    + spec_added_to(completed@, key),
            inventory.spec_total() == old(inventory).spec_total() + spec_added_total(completed@),
            queue.player_id == old(queue).player_id,
            forall|t: int|
                0 <= t < i ==> {
                    let jo = #[trigger] old(queue).jobs@[t];
                    let jn = queue.jobs@[t];
                    &&& jn.job_id == jo.job_id
                    &&& jn.recipe_id == jo.recipe_id
                    &&& jn.start_time_ms == jo.start_time_ms
                    &&& jn.end_time_ms == jo.end_time_ms
                    &&& (if job_active(jo) && jo.end_time_ms <= current_time_ms {
                        jn.status is Complete || jn.status is Failed
                    } else {
                        jn.status == jo.status
                    })
                },
            forall|t: int| i <= t < n ==> #[trigger] queue.jobs@[t] == old(queue).jobs@[t],
            forall|k: int|
                0 <= k < completed@.len() ==> !job_active((#[trigger] completed@[k]).job)
                    && completed@[k].job.end_time_ms <= current_time_ms,
    {
        proof {
            assert(old(queue).jobs@.take(i as int + 1) =~= old(queue).jobs@.take(i as int).push(
                old(queue).jobs@[i as int],
            ));
        }
        let active = match queue.jobs[i].status {
            CraftJobStatus::Pending => true,
            CraftJobStatus::Crafting => true,
            _ => false,
        };
        if active && queue.jobs[i].end_time_ms <= current_time_ms {
            let recipe = get_recipe(job_recipe_id(&queue.jobs, i));
            let (new_status, output_item, output_amount, added) = match recipe {
                None => (CraftJobStatus::Failed, None, 0u32, false),
                Some(rc) => {
                    let ok = inventory.add(rc.output.item.as_str(), rc.output.amount);
                    if ok {
                        (CraftJobStatus::Complete, Some(rc.output.item), rc.output.amount, true)
                    } else {
                        (CraftJobStatus::Failed, Some(rc.output.item), rc.output.amount, false)
                    }
                },
            };
            let updated = CraftJob {
                job_id: queue.jobs[i].job_id,
                recipe_id: queue.jobs[i].recipe_id.clone(),
                start_time_ms: queue.jobs[i].start_time_ms,
                end_time_ms: queue.jobs[i].end_time_ms,
                status: new_status,
            };
            let report = updated.clone();
            queue.jobs[i] = updated;
            let ghost comp0 = completed@;
            completed.push(CompletedCraft { job: report, output_item, output_amount, added });
            proof {
                assert(completed@.drop_last() =~= comp0);
                lemma_craft_run_push_due(
                    old(queue).jobs@.take(i as int),
                    comp0,
                    old(queue).jobs@[i as int],
                    completed@.last(),
                    old(inventory).spec_total() as int,
                    old(inventory).max_capacity as int,
                    current_time_ms,
                );
                lemma_added_total_push(comp0, completed@.last());
            }
        } else {
            proof {
                lemma_craft_run_push_skip(
                    old(queue).jobs@.take(i as int),
                    completed@,
                    old(queue).jobs@[i as int],
                    old(inventory).spec_total() as int,
                    old(inventory).max_capacity as int,
                    current_time_ms,
                );
            }
        }
    }
    proof {
        assert(old(queue).jobs@.take(n as int) =~= old(queue).jobs@);
    }
    completed
}

fn job_recipe_id<'a>(jobs: &'a Vec<CraftJob>, i: usize) -> (r: &'a str)
    requires
        i < jobs@.len(),
    ensures
        r@ == jobs@[i as int].recipe_id@,
{
    jobs[i].recipe_id.as_str()
}

} // verus!
