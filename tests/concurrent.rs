use texcore::element::{Element, ElementList};
use texcore::level::Level;
use texcore::ty::{Custom, Input, Metadata, Package, Part};

fn empty_list() -> ElementList {
    ElementList::new(&Metadata::new("A", "D", "T", 10, "a4paper", "article", true))
}

fn single_list() -> ElementList {
    let mut list = empty_list();
    list.push(Element::from_part(Part::new("only")));
    list
}

fn mixed_list() -> ElementList {
    let mut list = empty_list();
    list.push(Element::from_part(Part::new("body")));
    list.push(Element::from_package(Package::new("amsmath")));
    list.push(Element::from_custom(Custom::new(r"\newcommand{\x}{y}", Level::Meta)));
    list.fpush(Element::from_package(Package::new("graphicx")));
    list
}

fn lists() -> Vec<fn() -> ElementList> {
    vec![empty_list, single_list, mixed_list]
}

#[test]
fn pool_render_matches_single_threaded() {
    let pool = rayon::ThreadPoolBuilder::new().num_threads(2).build().unwrap();
    for make in lists() {
        let list = make();
        let on_pool = pool.install(|| list.to_latex_string());
        assert_eq!(on_pool, list.to_latex_string());
        let split_on_pool = pool.install(|| list.to_latex_split_string(Input::new("s", Level::Meta)));
        assert_eq!(split_on_pool, list.to_latex_split_string(Input::new("s", Level::Meta)));
    }
}

#[test]
fn task_render_matches_single_threaded() {
    let rt = tokio::runtime::Runtime::new().unwrap();
    for make in lists() {
        let expected = make().to_latex_string();
        let list = make();
        let from_task = rt.block_on(async move {
            tokio::spawn(async move { list.to_latex_string() }).await.unwrap()
        });
        assert_eq!(from_task, expected);
    }
}
