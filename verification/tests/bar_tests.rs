use dockbar::bar::{dispatch_event, Bar, WmScreen};
use dockbar::config::{BarBuilder, DockDirection};
use dockbar::dock::DockWindow;
use dockbar::event::{ClickEvent, Event, EventTypes, CLICK, QUIT};
use dockbar::visual::Screen;

struct CountingBar {
    clicks: Vec<ClickEvent>,
    quits: usize,
}

impl Bar for CountingBar {
    fn new() -> Self {
        CountingBar { clicks: Vec::new(), quits: 0 }
    }

    fn get_bar_builder(&self) -> BarBuilder {
        BarBuilder::default().width(35).docking(DockDirection::Bottom)
    }

    fn get_event_types(&self) -> EventTypes {
        CLICK | QUIT
    }

    fn on_click(&mut self, _bar: &mut DockWindow, event: ClickEvent) {
        self.clicks.push(event);
    }

    fn on_quit(&mut self) {
        self.quits += 1;
    }
}

fn some_dock() -> DockWindow {
    DockWindow {
        win: 1,
        left: 0,
        right: 0,
        pos: (0, 0),
        screen_size: (1920, 1080),
        size: (1920, 35),
        width: 35,
    }
}

#[test]
fn clicks_reach_the_click_callback() {
    let mut bar = CountingBar::new();
    let mut dock = some_dock();
    dispatch_event(&mut bar, &mut dock, &Event::MouseDown(ClickEvent { x: 10, y: 20 }));
    dispatch_event(&mut bar, &mut dock, &Event::MouseUp(ClickEvent { x: 10, y: 20 }));
    assert_eq!(bar.clicks.len(), 2);
    assert_eq!(bar.clicks[0], ClickEvent { x: 10, y: 20 });
    assert_eq!(bar.quits, 0);
}

#[test]
fn default_screen_selection_takes_every_screen() {
    let screen = Screen {
        root: 1,
        root_visual: 2,
        black_pixel: 0,
        width_in_pixels: 800,
        height_in_pixels: 600,
        width_in_millimeters: 300,
        height_in_millimeters: 200,
        allowed_depths: Vec::new(),
    };
    assert_eq!(screen.dimensions(), (800, 600));
    assert_eq!(screen.physical_dimensions(), Some((300, 200)));
    let bar = CountingBar::new();
    let screens = vec![screen.clone(), screen.clone(), screen];
    assert_eq!(bar.select_screens(&screens), vec![0, 1, 2]);
    assert_eq!(bar.select_screens::<Screen>(&[]), Vec::<usize>::new());
}

#[test]
fn default_event_interest_is_none() {
    struct PlainBar;
    impl Bar for PlainBar {
        fn new() -> Self {
            PlainBar
        }
    }
    let bar = PlainBar::new();
    assert_eq!(bar.get_event_types(), 0);
    assert_eq!(*bar.get_bar_builder().get_width(), 20);
}
