use vstd::prelude::*;

verus! {

/// Number of words in one page.
pub const PAGE_SIZE: usize = 2048;

/// Number of words in one stack.
pub const STACK_SIZE: usize = 16384;

/// A page of zero-initialised words.
#[derive(Clone, Copy, Debug)]
pub struct Page(pub [u32; PAGE_SIZE]);

/// A stack of words, eight pages long.
#[derive(Clone, Copy, Debug)]
pub struct Stack(pub [u32; STACK_SIZE]);

/// A growable sequence of pages.
#[derive(Clone, Debug)]
pub struct Heap(pub Vec<Page>);

/// One of the three kinds of memory.
#[derive(Clone, Debug)]
pub enum Memory {
    Page(Page),
    Stack(Stack),
    Heap(Heap),
}

/// A page holds only zeros.
pub open spec fn is_zero_page(p: Page) -> bool {
    forall|i: int| 0 <= i < PAGE_SIZE ==> #[trigger] p.0@[i] == 0u32
}

/// A stack holds only zeros.
pub open spec fn is_zero_stack(s: Stack) -> bool {
    forall|i: int| 0 <= i < STACK_SIZE ==> #[trigger] s.0@[i] == 0u32
}

impl Page {
    pub fn new() -> (p: Page)
        ensures
            is_zero_page(p),
    {
        Page([0u32; PAGE_SIZE])
    }
}

impl Stack {
    pub fn new() -> (s: Stack)
        ensures
            is_zero_stack(s),
    {
        Stack([0u32; STACK_SIZE])
    }
}

impl Heap {
    pub fn new() -> (h: Heap)
        ensures
            h.0@ == Seq::<Page>::empty(),
    {
        Heap(Vec::new())
    }
}


/// The memory roots of a runtime; each is absent until `init` runs.
pub struct Roots {
    pub page: Option<Page>,
    pub stack: Option<Stack>,
    pub heap: Option<Heap>,
}

impl Roots {
    /// Roots before initialisation: all three are absent.
    pub fn new() -> (r: Roots)
        ensures
            r.page is None,
            r.stack is None,
            r.heap is None,
    {
        Roots { page: None, stack: None, heap: None }
    }

    /// All three roots are present.
    pub open spec fn ready(&self) -> bool {
        &&& self.page is Some
        &&& self.stack is Some
        &&& self.heap is Some
    }

    /// The pages of the root heap.
    pub open spec fn pages(&self) -> Seq<Page> {
        self.heap.unwrap().0@
    }
}

/// Installs a fresh zero page, a fresh zero stack and an empty heap as roots.
pub fn init(roots: &mut Roots) -> (r: Result<(), &'static str>)
    ensures
        r is Ok,
        final(roots).ready(),
        is_zero_page(final(roots).page->0),
        is_zero_stack(final(roots).stack->0),
        final(roots).pages() == Seq::<Page>::empty(),
{
    roots.page = Some(Page::new());
    roots.stack = Some(Stack::new());
    roots.heap = Some(Heap::new());
    Ok(())
}

/// The root page, for reading and writing.
pub fn root_page(roots: &mut Roots) -> (r: &mut Page)
    requires
        old(roots).page is Some,
    ensures
        *r == old(roots).page->0,
        final(roots).page == Some(*final(r)),
        final(roots).stack == old(roots).stack,
        final(roots).heap == old(roots).heap,
{
    roots.page.as_mut().unwrap()
}

/// The root stack, for reading and writing.
pub fn root_stack(roots: &mut Roots) -> (r: &mut Stack)
    requires
        old(roots).stack is Some,
    ensures
        *r == old(roots).stack->0,
        final(roots).stack == Some(*final(r)),
        final(roots).page == old(roots).page,
        final(roots).heap == old(roots).heap,
{
    roots.stack.as_mut().unwrap()
}

/// The root heap, for reading and writing.
pub fn root_heap(roots: &mut Roots) -> (r: &mut Heap)
    requires
        old(roots).heap is Some,
    ensures
        *r == old(roots).heap->0,
        final(roots).heap == Some(*final(r)),
        final(roots).page == old(roots).page,
        final(roots).stack == old(roots).stack,
{
    roots.heap.as_mut().unwrap()
}

/// The page at index `x` of the root heap, if the heap has that many pages.
pub fn get_page(roots: &mut Roots, x: usize) -> (r: Option<&mut Page>)
    requires
        old(roots).heap is Some,
    ensures
        r is Some <==> x < old(roots).pages().len(),
        r is Some ==> *r->0 == old(roots).pages()[x as int],
        r is Some ==> final(roots).pages() == old(roots).pages().update(x as int, *final(r->0)),
        r is None ==> *final(roots) == *old(roots),
        final(roots).heap is Some,
        final(roots).page == old(roots).page,
        final(roots).stack == old(roots).stack,
{
    let heap = root_heap(roots);
    if x < heap.0.len() {
        Some(&mut heap.0[x])
    } else {
        None
    }
}


/// Appends a fresh zero page to the root heap; returns it with its index.
pub fn alloc_page(roots: &mut Roots) -> (r: (Option<&mut Page>, usize))
    requires
        old(roots).heap is Some,
    ensures
        r.1 == old(roots).pages().len(),
        r.0 is Some,
        is_zero_page(*r.0->0),
        final(roots).pages() == old(roots).pages().push(*final(r.0->0)),
        final(roots).heap is Some,
        final(roots).page == old(roots).page,
        final(roots).stack == old(roots).stack,
{
    let heap = root_heap(roots);
    let index = heap.0.len();
    heap.0.push(Page::new());
    (Some(&mut heap.0[index]), index)
}

/// Removes the page at `index` from the root heap; later pages move down by one.
pub fn dealloc_page(roots: &mut Roots, index: usize) -> (r: Result<(), &'static str>)
    requires
        old(roots).heap is Some,
        index < old(roots).pages().len(),
    ensures
        r is Ok,
        final(roots).pages() == old(roots).pages().remove(index as int),
        final(roots).heap is Some,
        final(roots).page == old(roots).page,
        final(roots).stack == old(roots).stack,
{
    let heap = root_heap(roots);
    heap.0.remove(index);
    Ok(())
}

/// Freeing the page that was just allocated gives back the heap as it was.
pub proof fn law_dealloc_undoes_alloc(pages: Seq<Page>, fresh: Page)
    ensures
        pages.push(fresh).remove(pages.len() as int) == pages,
{
    assert(pages.push(fresh).remove(pages.len() as int) =~= pages);
}

/// Allocating leaves every earlier page where it was, and the new page is
/// found at the returned index.
pub proof fn law_alloc_keeps_pages(pages: Seq<Page>, fresh: Page)
    ensures
        pages.push(fresh).len() == pages.len() + 1,
        pages.push(fresh)[pages.len() as int] == fresh,
        forall|i: int| 0 <= i < pages.len() ==> #[trigger] pages.push(fresh)[i] == pages[i],
{
}

/// Removing a page shifts every later page down by one and keeps every earlier one.
pub proof fn law_dealloc_shifts(pages: Seq<Page>, index: int)
    requires
        0 <= index < pages.len(),
    ensures
        pages.remove(index).len() == pages.len() - 1,
        forall|i: int| 0 <= i < index ==> #[trigger] pages.remove(index)[i] == pages[i],
        forall|i: int| index <= i < pages.len() - 1 ==> #[trigger] pages.remove(index)[i] == pages[i + 1],
{
}

} // verus!
