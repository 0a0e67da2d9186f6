use swift_seller::{
    Content, ContentKind, DepositOutcome, Direction, SellError, SellReceipt, SellTransaction,
    SwiftSeller, Tile, TileKind, Viewport,
};

fn grass_tile(kind: ContentKind, quantity: usize) -> Tile {
    Tile { tile_type: TileKind::Grass, content: Content { kind, quantity }, elevation: 0 }
}

/// The 3x3 window of the world centered on (row, col); cells off the world
/// edge are absent.
fn viewport_at(world: &Vec<Vec<Tile>>, row: isize, col: isize) -> Viewport {
    let mut cells: Vec<Vec<Option<Tile>>> = Vec::new();
    for di in -1..=1isize {
        let mut r: Vec<Option<Tile>> = Vec::new();
        for dj in -1..=1isize {
            let (i, j) = (row + di, col + dj);
            if i >= 0 && j >= 0 && (i as usize) < world.len() && (j as usize) < world[i as usize].len() {
                r.push(Some(world[i as usize][j as usize]));
            } else {
                r.push(None);
            }
        }
        cells.push(r);
    }
    Viewport::from_cells(cells).unwrap()
}

/// A viewport whose nine cells carry the given content kinds, row by row.
fn viewport_of_kinds(kinds: [[ContentKind; 3]; 3]) -> Viewport {
    let mut cells: Vec<Vec<Option<Tile>>> = Vec::new();
    for i in 0..3 {
        let mut r: Vec<Option<Tile>> = Vec::new();
        for j in 0..3 {
            r.push(Some(grass_tile(kinds[i][j], 1)));
        }
        cells.push(r);
    }
    Viewport::from_cells(cells).unwrap()
}

/// Drive one sale as the host would: perform each requested deposit by
/// taking the scripted outcome, stop as soon as the transaction is done.
fn run_sale(
    view: &Viewport,
    snapshot: &Vec<(ContentKind, usize)>,
    outcomes: &[DepositOutcome],
) -> Result<SellReceipt, SellError> {
    let mut tx = SellTransaction::begin(view, snapshot)?;
    let mut next_outcome = 0;
    while let Some(_request) = tx.next_action() {
        tx.record_outcome(outcomes[next_outcome]);
        next_outcome += 1;
    }
    tx.outcome()
}

const N: ContentKind = ContentKind::Nothing;
const M: ContentKind = ContentKind::Market;

/// The scenario of the original driver: on a 3x3 grid with a Market at the
/// center, the agent walks clockwise around it, and detection alternates
/// between the orthogonal and the corner positions; at every market stop a
/// sale from the empty backpack yields a receipt of three zeroes.
#[test]
fn sell_to_market() {
    let world: Vec<Vec<Tile>> = vec![
        vec![grass_tile(N, 0), grass_tile(ContentKind::Tree, 1), grass_tile(N, 0)],
        vec![grass_tile(N, 0), grass_tile(M, 1), grass_tile(N, 0)],
        vec![grass_tile(N, 0), grass_tile(N, 0), grass_tile(ContentKind::Tree, 2)],
    ];

    // moves from (0,0): Right, Right, Down, Down, Left, Left, Up, Up
    let path: [(isize, isize); 8] = [
        (0, 1),
        (0, 2),
        (1, 2),
        (2, 2),
        (2, 1),
        (2, 0),
        (1, 0),
        (0, 0),
    ];
    let expected_adjacent = [true, false, true, false, true, false, true, false];
    let expected_direction = [
        Some(Direction::Down),
        None,
        Some(Direction::Left),
        None,
        Some(Direction::Up),
        None,
        Some(Direction::Right),
        None,
    ];

    let empty: Vec<(ContentKind, usize)> = Vec::new();
    for step in 0..8 {
        let view = viewport_at(&world, path[step].0, path[step].1);
        assert_eq!(SwiftSeller::market_adjacent(&view), expected_adjacent[step]);
        assert_eq!(view.find_market(), expected_direction[step]);
        let sale = run_sale(&view, &empty, &[]);
        if expected_adjacent[step] {
            let receipt = sale.unwrap();
            assert_eq!(receipt.rock, 0);
            assert_eq!(receipt.tree, 0);
            assert_eq!(receipt.fish, 0);
        } else {
            assert_eq!(sale, Err(SellError::OperationNotAllowed));
        }
    }
}

#[test]
fn locator_reports_single_neighbor() {
    let up = viewport_of_kinds([[N, M, N], [N, N, N], [N, N, N]]);
    assert_eq!(up.find_market(), Some(Direction::Up));
    let left = viewport_of_kinds([[N, N, N], [M, N, N], [N, N, N]]);
    assert_eq!(left.find_market(), Some(Direction::Left));
    let right = viewport_of_kinds([[N, N, N], [N, N, M], [N, N, N]]);
    assert_eq!(right.find_market(), Some(Direction::Right));
    let down = viewport_of_kinds([[N, N, N], [N, N, N], [N, M, N]]);
    assert_eq!(down.find_market(), Some(Direction::Down));
}

#[test]
fn locator_ignores_center_and_corners() {
    let view = viewport_of_kinds([[M, N, M], [N, M, N], [M, N, M]]);
    assert_eq!(view.find_market(), None);
    assert!(!SwiftSeller::market_adjacent(&view));
}

#[test]
fn locator_tie_break_takes_last_in_scan_order() {
    // Right and Down both carry a market: Down is later in scan order.
    let view = viewport_of_kinds([[N, N, N], [N, N, M], [N, M, N]]);
    assert_eq!(view.find_market(), Some(Direction::Down));
    // Up and Left: Left is later in scan order.
    let view = viewport_of_kinds([[N, M, N], [M, N, N], [N, N, N]]);
    assert_eq!(view.find_market(), Some(Direction::Left));
    // All four: Down wins.
    let view = viewport_of_kinds([[N, M, N], [M, N, M], [N, M, N]]);
    assert_eq!(view.find_market(), Some(Direction::Down));
}

#[test]
fn empty_inventory_sells_nothing() {
    let view = viewport_of_kinds([[N, N, N], [N, N, M], [N, N, N]]);
    let empty: Vec<(ContentKind, usize)> = Vec::new();
    let receipt = run_sale(&view, &empty, &[]).unwrap();
    assert_eq!(receipt, SellReceipt { rock: 0, tree: 0, fish: 0 });
    assert_eq!(receipt.amount_of(ContentKind::Rock), 0);
    assert_eq!(receipt.amount_of(ContentKind::Tree), 0);
    assert_eq!(receipt.amount_of(ContentKind::Fish), 0);
}

#[test]
fn accepted_deposits_fill_the_receipt() {
    let view = viewport_of_kinds([[N, M, N], [N, N, N], [N, N, N]]);
    let snapshot: Vec<(ContentKind, usize)> =
        vec![(ContentKind::Rock, 7), (ContentKind::Coin, 3), (ContentKind::Fish, 2)];
    let outcomes = [
        DepositOutcome::Accepted { coins: 14 },
        DepositOutcome::Accepted { coins: 4 },
    ];
    let receipt = run_sale(&view, &snapshot, &outcomes).unwrap();
    assert_eq!(receipt.rock, 7);
    assert_eq!(receipt.tree, 0);
    assert_eq!(receipt.fish, 2);
}

#[test]
fn deposit_requests_follow_snapshot_order() {
    let view = viewport_of_kinds([[N, N, N], [N, N, N], [N, M, N]]);
    let snapshot: Vec<(ContentKind, usize)> = vec![
        (ContentKind::Coin, 5),
        (ContentKind::Rock, 0),
        (ContentKind::Tree, 3),
        (ContentKind::Fish, 1),
    ];
    let mut tx = SellTransaction::begin(&view, &snapshot).unwrap();

    let first = tx.next_action().unwrap();
    assert_eq!(first.kind, ContentKind::Tree);
    assert_eq!(first.quantity, 3);
    assert_eq!(first.direction, Direction::Down);
    tx.record_outcome(DepositOutcome::Accepted { coins: 6 });

    let second = tx.next_action().unwrap();
    assert_eq!(second.kind, ContentKind::Fish);
    assert_eq!(second.quantity, 1);
    tx.record_outcome(DepositOutcome::Accepted { coins: 2 });

    assert!(tx.is_finished());
    assert_eq!(tx.next_action(), None);
    assert_eq!(tx.coins_earned(), 8);
    let receipt = tx.outcome().unwrap();
    assert_eq!(receipt, SellReceipt { rock: 0, tree: 3, fish: 1 });
}

#[test]
fn refused_deposit_aborts_with_attempted_quantity() {
    let view = viewport_of_kinds([[N, N, N], [M, N, N], [N, N, N]]);
    let snapshot: Vec<(ContentKind, usize)> =
        vec![(ContentKind::Rock, 7), (ContentKind::Tree, 4), (ContentKind::Fish, 9)];
    let mut tx = SellTransaction::begin(&view, &snapshot).unwrap();

    let first = tx.next_action().unwrap();
    assert_eq!(first.kind, ContentKind::Rock);
    tx.record_outcome(DepositOutcome::Accepted { coins: 14 });

    let second = tx.next_action().unwrap();
    assert_eq!(second.kind, ContentKind::Tree);
    assert_eq!(second.quantity, 4);
    // The market cannot credit the coins: it reports the attempted quantity.
    tx.record_outcome(DepositOutcome::Refused { attempted: second.quantity });

    assert!(tx.is_finished());
    assert_eq!(tx.next_action(), None);
    assert_eq!(tx.outcome(), Err(SellError::NotEnoughSpace(4)));
}

#[test]
fn no_adjacent_market_refuses_the_sale() {
    let view = viewport_of_kinds([[N, N, N], [N, N, N], [N, N, N]]);
    let snapshot: Vec<(ContentKind, usize)> = vec![(ContentKind::Rock, 7)];
    assert_eq!(run_sale(&view, &snapshot, &[]), Err(SellError::OperationNotAllowed));
}

#[test]
fn market_kind_matches_by_tag_not_quantity() {
    // A market whose payload differs from 1 is still a market.
    let mut cells: Vec<Vec<Option<Tile>>> = Vec::new();
    for i in 0..3 {
        let mut r: Vec<Option<Tile>> = Vec::new();
        for j in 0..3 {
            if i == 2 && j == 1 {
                r.push(Some(grass_tile(ContentKind::Market, 42)));
            } else {
                r.push(None);
            }
        }
        cells.push(r);
    }
    let view = Viewport::from_cells(cells).unwrap();
    assert_eq!(view.find_market(), Some(Direction::Down));
}

#[test]
fn viewport_must_be_three_by_three() {
    let short: Vec<Vec<Option<Tile>>> = vec![vec![None; 3], vec![None; 3]];
    assert!(Viewport::from_cells(short).is_none());
    let ragged: Vec<Vec<Option<Tile>>> = vec![vec![None; 3], vec![None; 2], vec![None; 3]];
    assert!(Viewport::from_cells(ragged).is_none());
}

#[test]
fn demo_world_map_layout() {
    let mut world = swift_seller::DemoWorld::init();
    let map = world.gen();
    assert_eq!(map.len(), 4);
    for row in &map {
        assert_eq!(row.len(), 4);
    }
    assert_eq!(map[1][1].content, Content { kind: ContentKind::Market, quantity: 1 });
    assert_eq!(map[1][2].content, Content { kind: ContentKind::Rock, quantity: 1 });
    assert_eq!(map[1][3].content, Content { kind: ContentKind::Fish, quantity: 1 });
    assert_eq!(map[1][3].tile_type, TileKind::ShallowWater);
    assert_eq!(map[2][3].content, Content { kind: ContentKind::Rock, quantity: 1 });
    assert_eq!(map[3][1].content, Content { kind: ContentKind::Market, quantity: 2 });
    assert_eq!(map[3][2].content, Content { kind: ContentKind::Tree, quantity: 1 });
    assert_eq!(map[3][3].content, Content { kind: ContentKind::Tree, quantity: 2 });
    for i in 0..4 {
        for j in 0..4 {
            if i != 1 || j != 3 {
                assert_eq!(map[i][j].tile_type, TileKind::Grass);
            }
            assert_eq!(map[i][j].elevation, 0);
            let marked = [(1, 1), (1, 2), (1, 3), (2, 3), (3, 1), (3, 2), (3, 3)];
            if !marked.contains(&(i, j)) {
                assert_eq!(map[i][j].content.kind, ContentKind::Nothing);
            }
        }
    }
    // A market of the demo map is found from the cell right of it.
    let view = viewport_at(&map, 1, 2);
    assert_eq!(view.find_market(), Some(Direction::Left));
}

#[test]
fn sellable_kinds_are_rock_tree_fish() {
    assert!(swift_seller::sellable_kind(ContentKind::Rock));
    assert!(swift_seller::sellable_kind(ContentKind::Tree));
    assert!(swift_seller::sellable_kind(ContentKind::Fish));
    assert!(!swift_seller::sellable_kind(ContentKind::Coin));
    assert!(!swift_seller::sellable_kind(ContentKind::Market));
    assert!(!swift_seller::sellable_kind(ContentKind::Nothing));
}
