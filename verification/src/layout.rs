//! Where the game keeps the data this library walks: the field offsets of its
//! objects and the address arithmetic that turns an object's address into the
//! address of one of its fields.
//!
//! Every function here only computes addresses; reading the memory at them is
//! left to the caller.
use vstd::prelude::*;

verus! {

/// The image base the game executable is linked at; function addresses in
/// `Offsets` are given relative to it.
pub const IMAGE_BASE: usize = 0x0040_0000;

/// Offset, inside the task scheduler, of the pointer to the first job slot.
pub const JOBS_BEGIN: usize = 0x134;

/// Offset, inside the task scheduler, of the pointer one past the last job slot.
pub const JOBS_END: usize = 0x138;

/// Distance between two job slots.
pub const JOB_STRIDE: usize = 8;

/// Offset of a job's name (an inline string, or a pointer to it).
pub const JOB_NAME: usize = 0x10;

/// Offset of the render view pointer inside the "Render" job.
pub const RENDER_VIEW: usize = 0x148;

/// Offset of the visual engine pointer inside the render view.
pub const VISUAL_ENGINE: usize = 0x8;

/// Offset of the screen width (an `f32`) inside the visual engine; the height follows it.
pub const SCREEN_DIMENSIONS: usize = 0x6fc;

/// Size of the screen width field that precedes the height.
pub const SCREEN_HEIGHT_AFTER_WIDTH: usize = 0x4;

/// What is added to the value stored in the data model slot to get the data model.
pub const DATAMODEL_ADJUST: usize = 0x4;

/// Distance between two entries of an instance's children table.
pub const CHILD_STRIDE: usize = 8;

/// Offset of the name pointer inside a reflected function descriptor.
pub const FUNCTION_NAME: usize = 0x4;

/// The field offsets of the game's objects.
pub struct Offsets {
    pub waitscriptdata: usize,
    pub parent_addon: usize,
    pub name_addon: usize,
    pub children_start: usize,
    pub children_end: usize,
    pub character: usize,
    pub def_start: usize,
    pub class_name: usize,
    pub primitive: usize,
    pub position: usize,
    pub roblox_printaddy: usize,
    pub task_scheduler: usize,
    pub viewmatrix: usize,
    pub fireprox: usize,
}

/// The offsets of the game build this library targets.
pub open spec fn default_offsets() -> Offsets {
    Offsets {
        waitscriptdata: 0x28,
        parent_addon: 0x38,
        name_addon: 0x2c,
        children_start: 0x30,
        children_end: 0x4,
        character: 0x80,
        def_start: 0xc,
        class_name: 0x4,
        primitive: 0xc4,
        position: 0xfc,
        roblox_printaddy: 0x10e1c00,
        task_scheduler: 0xb26840,
        viewmatrix: 0x170,
        fireprox: 0x146ea30,
    }
}

impl Default for Offsets {
    fn default() -> (r: Self)
        ensures
            r == default_offsets(),
    {
        Offsets {
            waitscriptdata: 0x28,
            parent_addon: 0x38,
            name_addon: 0x2c,
            children_start: 0x30,
            children_end: 0x4,
            character: 0x80,
            def_start: 0xc,
            class_name: 0x4,
            primitive: 0xc4,
            position: 0xfc,
            roblox_printaddy: 0x10e1c00,
            task_scheduler: 0xb26840,
            viewmatrix: 0x170,
            fireprox: 0x146ea30,
        }
    }
}

/// `base + offset`, the address of a field at `offset` inside an object at `base`.
pub open spec fn field(base: int, offset: int) -> int {
    base + offset
}

/// Where the character of the player at `instance` is stored.
pub open spec fn character_address(offsets: Offsets, instance: int) -> int {
    field(instance, offsets.character as int)
}

/// Where the local player of the players service at `instance` is stored.
pub open spec fn localplayer_address(offsets: Offsets, instance: int) -> int {
    field(instance, offsets.character as int)
}

/// The local player of the players service and the character of a player
/// are read from the same field: for any instance the two addresses agree.
pub proof fn lemma_localplayer_is_character(offsets: Offsets, instance: int)
    ensures
        localplayer_address(offsets, instance) == character_address(offsets, instance),
{
}

/// Moves an address given relative to the executable's link-time image base
/// to where the executable was loaded (`module_base`).
pub fn rebase_adress(adress: usize, module_base: usize) -> (r: usize)
    requires
        IMAGE_BASE <= adress,
        adress - IMAGE_BASE + module_base <= usize::MAX,
    ensures
        r == adress - IMAGE_BASE + module_base,
{
    adress - IMAGE_BASE + module_base
}

impl Offsets {
    /// `adress` taken relative to where the executable was loaded.
    pub fn with_base_adress(&self, adress: usize, module_base: usize) -> (r: usize)
        requires
            module_base + adress <= usize::MAX,
        ensures
            r == module_base + adress,
    {
        module_base + adress
    }

    /// Where the function that returns the task scheduler was loaded.
    pub fn task_scheduler_function(&self, module_base: usize) -> (r: usize)
        requires
            IMAGE_BASE <= self.task_scheduler,
            self.task_scheduler - IMAGE_BASE + module_base <= usize::MAX,
        ensures
            r == self.task_scheduler - IMAGE_BASE + module_base,
    {
        rebase_adress(self.task_scheduler, module_base)
    }

    /// Where the function that fires a proximity prompt was loaded.
    pub fn fireprox_function(&self, module_base: usize) -> (r: usize)
        requires
            IMAGE_BASE <= self.fireprox,
            self.fireprox - IMAGE_BASE + module_base <= usize::MAX,
        ensures
            r == self.fireprox - IMAGE_BASE + module_base,
    {
        rebase_adress(self.fireprox, module_base)
    }

    /// Where the game's print function was loaded.
    pub fn print_function(&self, module_base: usize) -> (r: usize)
        requires
            IMAGE_BASE <= self.roblox_printaddy,
            self.roblox_printaddy - IMAGE_BASE + module_base <= usize::MAX,
        ensures
            r == self.roblox_printaddy - IMAGE_BASE + module_base,
    {
        rebase_adress(self.roblox_printaddy, module_base)
    }

    /// The slot holding the parent of `instance`.
    pub fn parent_slot(&self, instance: usize) -> (r: usize)
        requires
            instance + self.parent_addon <= usize::MAX,
        ensures
            r == field(instance as int, self.parent_addon as int),
    {
        instance + self.parent_addon
    }

    /// The slot holding the character of a player.
    pub fn character_slot(&self, instance: usize) -> (r: usize)
        requires
            instance + self.character <= usize::MAX,
        ensures
            r == character_address(*self, instance as int),
    {
        instance + self.character
    }

    /// The slot holding the local player of the players service.
    pub fn localplayer_slot(&self, instance: usize) -> (r: usize)
        requires
            instance + self.character <= usize::MAX,
        ensures
            r == localplayer_address(*self, instance as int),
    {
        instance + self.character
    }

    /// The slot holding the pointer to the name string of `instance`.
    pub fn name_slot(&self, instance: usize) -> (r: usize)
        requires
            instance + self.name_addon <= usize::MAX,
        ensures
            r == field(instance as int, self.name_addon as int),
    {
        instance + self.name_addon
    }

    /// The slot holding the class descriptor of `instance`.
    pub fn class_descriptor_slot(&self, instance: usize) -> (r: usize)
        requires
            instance + self.def_start <= usize::MAX,
        ensures
            r == field(instance as int, self.def_start as int),
    {
        instance + self.def_start
    }

    /// The slot, inside a class descriptor, holding the pointer to the class name.
    pub fn class_name_slot(&self, descriptor: usize) -> (r: usize)
        requires
            descriptor + self.class_name <= usize::MAX,
        ensures
            r == field(descriptor as int, self.class_name as int),
    {
        descriptor + self.class_name
    }

    /// The slot holding the primitive of a part.
    pub fn primitive_slot(&self, part: usize) -> (r: usize)
        requires
            part + self.primitive <= usize::MAX,
        ensures
            r == field(part as int, self.primitive as int),
    {
        part + self.primitive
    }

    /// Where the position of a part is read: inside its primitive when the
    /// primitive's first word (`tag`) is not zero, nowhere (the part stands at
    /// the origin) otherwise.
    pub fn position_source(&self, primitive: usize, tag: i32) -> (r: Option<usize>)
        requires
            tag != 0 ==> primitive + self.position <= usize::MAX,
        ensures
            tag != 0 ==> r == Some(field(primitive as int, self.position as int) as usize),
            tag == 0 ==> r is None,
    {
        if tag != 0 {
            Some(primitive + self.position)
        } else {
            None
        }
    }

    /// The slot, inside the job that waits for scripts, that leads to the data model.
    pub fn datamodel_slot(&self, waiting_scripts_job: usize) -> (r: usize)
        requires
            waiting_scripts_job + self.waitscriptdata <= usize::MAX,
        ensures
            r == field(waiting_scripts_job as int, self.waitscriptdata as int),
    {
        waiting_scripts_job + self.waitscriptdata
    }

    /// The slot holding the view matrix inside the visual engine.
    pub fn view_matrix_slot(&self, visual_engine: usize) -> (r: usize)
        requires
            visual_engine + self.viewmatrix <= usize::MAX,
        ensures
            r == field(visual_engine as int, self.viewmatrix as int),
    {
        visual_engine + self.viewmatrix
    }

    /// The slot holding the address of the children table of `instance`; an
    /// instance at address zero has no children and no slot is read.
    pub fn children_slot(&self, instance: usize) -> (r: Option<usize>)
        requires
            instance + self.children_start <= usize::MAX,
        ensures
            instance == 0 ==> r is None,
            instance != 0 ==> r == Some(field(instance as int, self.children_start as int) as usize),
    {
        if instance == 0 {
            None
        } else {
            Some(instance + self.children_start)
        }
    }

    /// The slot, inside a children table at `table`, holding the end of the table.
    pub fn children_end_slot(&self, table: usize) -> (r: usize)
        requires
            table + self.children_end <= usize::MAX,
        ensures
            r == field(table as int, self.children_end as int),
    {
        table + self.children_end
    }
}

/// The value stored in the data model slot, turned into the data model's address.
pub fn datamodel_from_slot(value: usize) -> (r: usize)
    requires
        value + DATAMODEL_ADJUST <= usize::MAX,
    ensures
        r == value + DATAMODEL_ADJUST,
{
    value + DATAMODEL_ADJUST
}

/// The slot, inside the task scheduler, holding the first job slot.
pub fn jobs_begin_slot(task_scheduler: usize) -> (r: usize)
    requires
        task_scheduler + JOBS_BEGIN <= usize::MAX,
    ensures
        r == field(task_scheduler as int, JOBS_BEGIN as int),
{
    task_scheduler + JOBS_BEGIN
}

/// The slot, inside the task scheduler, holding the end of the job slots.
pub fn jobs_end_slot(task_scheduler: usize) -> (r: usize)
    requires
        task_scheduler + JOBS_END <= usize::MAX,
    ensures
        r == field(task_scheduler as int, JOBS_END as int),
{
    task_scheduler + JOBS_END
}

/// Where the name of a job starts.
pub fn job_name_slot(job: usize) -> (r: usize)
    requires
        job + JOB_NAME <= usize::MAX,
    ensures
        r == field(job as int, JOB_NAME as int),
{
    job + JOB_NAME
}

/// The slot, inside the "Render" job, holding the render view.
pub fn render_view_slot(render_job: usize) -> (r: usize)
    requires
        render_job + RENDER_VIEW <= usize::MAX,
    ensures
        r == field(render_job as int, RENDER_VIEW as int),
{
    render_job + RENDER_VIEW
}

/// The slot, inside the render view, holding the visual engine.
pub fn visual_engine_slot(render_view: usize) -> (r: usize)
    requires
        render_view + VISUAL_ENGINE <= usize::MAX,
    ensures
        r == field(render_view as int, VISUAL_ENGINE as int),
{
    render_view + VISUAL_ENGINE
}

/// Where the screen width and height are stored inside the visual engine.
pub fn screen_dimension_slots(visual_engine: usize) -> (r: (usize, usize))
    requires
        visual_engine + SCREEN_DIMENSIONS + SCREEN_HEIGHT_AFTER_WIDTH <= usize::MAX,
    ensures
        r.0 == field(visual_engine as int, SCREEN_DIMENSIONS as int),
        r.1 == r.0 + SCREEN_HEIGHT_AFTER_WIDTH,
{
    let width = visual_engine + SCREEN_DIMENSIONS;
    (width, width + SCREEN_HEIGHT_AFTER_WIDTH)
}

/// The addresses found while starting up: the data model, the players
/// service, the local player and the visual engine.
pub struct Addresses {
    pub datamodel: usize,
    pub players: usize,
    pub localplayer: usize,
    pub visualengine: usize,
}

impl Addresses {
    /// Nothing found yet: every address is zero.
    pub fn unset() -> (r: Self)
        ensures
            r.datamodel == 0,
            r.players == 0,
            r.localplayer == 0,
            r.visualengine == 0,
    {
        Addresses { datamodel: 0, players: 0, localplayer: 0, visualengine: 0 }
    }
}

/// A function exposed by the game's reflection system.
#[allow(non_camel_case_types)]
pub struct rbxfunctions {
    pub address: usize,
}

impl rbxfunctions {
    /// The slot holding the pointer to this function's name string.
    pub fn name_slot(&self) -> (r: usize)
        requires
            self.address + FUNCTION_NAME <= usize::MAX,
        ensures
            r == field(self.address as int, FUNCTION_NAME as int),
    {
        self.address + FUNCTION_NAME
    }
}

} // verus!
